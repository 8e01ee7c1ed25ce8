//! The message payloads exchanged between the agent's actors: software-list
//! and software-update requests and responses, and device commands with
//! their status lifecycle.

use vstd::prelude::*;
use vstd::string::StrSliceExecFns;
use vstd::string::StringExecFns;
use vstd::string::StringSliceAdditionalSpecFns;
use vstd::utf8::encode_utf8;

use crate::mqtt::channel_suffix;
use crate::mqtt::Channel;
use crate::mqtt::EntityTopicId;
use crate::mqtt::MqttMessage;
use crate::mqtt::MqttSchema;
use crate::mqtt::OperationType;
use crate::mqtt::QoS;
use crate::mqtt::Topic;
use crate::text::json_escaped;
use crate::text::push_json_escaped;
use crate::text::push_text;
use crate::software::clone_opt_download;
use crate::software::clone_opt_string;
use crate::software::opt_text;
use crate::software::opt_url;
use crate::software::DownloadInfo;
use crate::software::ErrorView;
use crate::software::ModuleView;
use crate::software::SoftwareError;
use crate::software::SoftwareModule;
use crate::software::SoftwareModuleUpdate;
use crate::software::SoftwareName;
use crate::software::SoftwareType;
use crate::software::SoftwareVersion;
use crate::software::UpdateView;

verus! {

pub const SOFTWARE_LIST_REQUEST_TOPIC: &'static str = "tedge/commands/req/software/list";

pub const SOFTWARE_LIST_RESPONSE_TOPIC: &'static str = "tedge/commands/res/software/list";

pub const SOFTWARE_UPDATE_REQUEST_TOPIC: &'static str = "tedge/commands/req/software/update";

pub const SOFTWARE_UPDATE_RESPONSE_TOPIC: &'static str = "tedge/commands/res/software/update";

/// Relies on nanoid::format with nanoid's default random source and URL-safe
/// alphabet: it returns a fresh identifier of exactly 21 characters drawn
/// from that 64-symbol ASCII alphabet. The identifier is random, so nothing
/// more is assumed of it.
#[verifier::external_body]
fn fresh_id() -> (r: String)
    ensures
        r@.len() == 21,
{
    nanoid::format(nanoid::rngs::default, &nanoid::alphabet::SAFE, 21)
}

/// The action requested for one software module.
#[derive(Clone, Copy, Debug, PartialEq, Eq, Structural)]
pub enum SoftwareModuleAction {
    Install,
    Remove,
}

/// One module entry of a request or response payload.
#[derive(Clone, Debug, PartialEq, Eq)]
pub struct SoftwareModuleItem {
    pub name: SoftwareName,
    pub version: Option<SoftwareVersion>,
    pub url: Option<DownloadInfo>,
    pub action: Option<SoftwareModuleAction>,
    pub reason: Option<String>,
}

/// Mathematical content of a module entry.
#[verifier::ext_equal]
pub struct ItemView {
    pub name: Seq<char>,
    pub version: Option<Seq<char>>,
    pub url: Option<Seq<char>>,
    pub action: Option<SoftwareModuleAction>,
    pub reason: Option<Seq<char>>,
}

impl View for SoftwareModuleItem {
    type V = ItemView;

    open spec fn view(&self) -> ItemView {
        ItemView {
            name: self.name@,
            version: opt_text(self.version),
            url: opt_url(self.url),
            action: self.action,
            reason: opt_text(self.reason),
        }
    }
}

/// The entry describing a module, without any requested action.
pub open spec fn item_of_module(module: ModuleView) -> ItemView {
    ItemView {
        name: module.name,
        version: module.version,
        url: module.url,
        action: Option::None,
        reason: Option::None,
    }
}

/// The entry describing a requested update.
pub open spec fn item_of_update(update: UpdateView) -> ItemView {
    match update {
        UpdateView::Install { module } => ItemView {
            name: module.name,
            version: module.version,
            url: module.url,
            action: Option::Some(SoftwareModuleAction::Install),
            reason: Option::None,
        },
        UpdateView::Remove { module } => ItemView {
            name: module.name,
            version: module.version,
            url: module.url,
            action: Option::Some(SoftwareModuleAction::Remove),
            reason: Option::None,
        },
    }
}

/// The entry describing a reported failure, where the failure concerns a
/// module; other failures have no entry.
pub open spec fn item_of_error(error: ErrorView) -> Option<ItemView> {
    match error {
        ErrorView::Install { module, reason } => Option::Some(
            ItemView {
                name: module.name,
                version: module.version,
                url: module.url,
                action: Option::Some(SoftwareModuleAction::Install),
                reason: Option::Some(reason),
            },
        ),
        ErrorView::Remove { module, reason } => Option::Some(
            ItemView {
                name: module.name,
                version: module.version,
                url: module.url,
                action: Option::Some(SoftwareModuleAction::Remove),
                reason: Option::Some(reason),
            },
        ),
        ErrorView::Other { reason } => Option::None,
    }
}

impl SoftwareModuleItem {
    pub fn from_module(module: SoftwareModule) -> (r: SoftwareModuleItem)
        ensures
            r@ == item_of_module(module@),
    {
        SoftwareModuleItem {
            name: module.name,
            version: module.version,
            url: module.url,
            action: Option::None,
            reason: Option::None,
        }
    }

    pub fn from_update(update: SoftwareModuleUpdate) -> (r: SoftwareModuleItem)
        ensures
            r@ == item_of_update(update@),
    {
        match update {
            SoftwareModuleUpdate::Install { module } => SoftwareModuleItem {
                name: module.name,
                version: module.version,
                url: module.url,
                action: Option::Some(SoftwareModuleAction::Install),
                reason: Option::None,
            },
            SoftwareModuleUpdate::Remove { module } => SoftwareModuleItem {
                name: module.name,
                version: module.version,
                url: module.url,
                action: Option::Some(SoftwareModuleAction::Remove),
                reason: Option::None,
            },
        }
    }

    pub fn from_error(error: SoftwareError) -> (r: Option<SoftwareModuleItem>)
        ensures
            (match r {
                Option::Some(item) => item_of_error(error@) == Option::Some(item@),
                Option::None => item_of_error(error@) is None,
            }),
    {
        match error {
            SoftwareError::Install { module, reason } => Option::Some(
                SoftwareModuleItem {
                    name: module.name,
                    version: module.version,
                    url: module.url,
                    action: Option::Some(SoftwareModuleAction::Install),
                    reason: Option::Some(reason),
                },
            ),
            SoftwareError::Remove { module, reason } => Option::Some(
                SoftwareModuleItem {
                    name: module.name,
                    version: module.version,
                    url: module.url,
                    action: Option::Some(SoftwareModuleAction::Remove),
                    reason: Option::Some(reason),
                },
            ),
            SoftwareError::Other { reason } => Option::None,
        }
    }
}

/// Sub-list of module entries grouped under one plugin type.
#[derive(Clone, Debug, PartialEq, Eq)]
pub struct SoftwareRequestResponseSoftwareList {
    pub plugin_type: SoftwareType,
    pub modules: Vec<SoftwareModuleItem>,
}

/// Mathematical content of a per-plugin-type sub-list.
#[verifier::ext_equal]
pub struct ListView {
    pub plugin_type: Seq<char>,
    pub modules: Seq<ItemView>,
}

impl View for SoftwareRequestResponseSoftwareList {
    type V = ListView;

    open spec fn view(&self) -> ListView {
        ListView {
            plugin_type: self.plugin_type@,
            modules: self.modules@.map_values(|item: SoftwareModuleItem| item@),
        }
    }
}

/// The content of a sequence of sub-lists.
pub open spec fn list_views(lists: Seq<SoftwareRequestResponseSoftwareList>) -> Seq<ListView> {
    lists.map_values(|list: SoftwareRequestResponseSoftwareList| list@)
}

/// The content of a sequence of module entries.
pub open spec fn item_views(items: Seq<SoftwareModuleItem>) -> Seq<ItemView> {
    items.map_values(|item: SoftwareModuleItem| item@)
}

/// The content of a sequence of updates.
pub open spec fn update_views(updates: Seq<SoftwareModuleUpdate>) -> Seq<UpdateView> {
    updates.map_values(|update: SoftwareModuleUpdate| update@)
}

/// The entries a batch of updates turns into, in order.
pub open spec fn items_of_updates(updates: Seq<SoftwareModuleUpdate>) -> Seq<ItemView> {
    updates.map_values(|update: SoftwareModuleUpdate| item_of_update(update@))
}

/// The text of a sequence of strings.
pub open spec fn text_views(texts: Seq<String>) -> Seq<Seq<char>> {
    texts.map_values(|text: String| text@)
}

/// The plugin types of a sequence of sub-lists, in order.
pub open spec fn type_names(lists: Seq<ListView>) -> Seq<Seq<char>> {
    lists.map_values(|list: ListView| list.plugin_type)
}

/// The index of the first sub-list of the given plugin type at or after
/// `start`, if any.
pub open spec fn find_list_from(lists: Seq<ListView>, plugin_type: Seq<char>, start: nat) -> Option<
    int,
>
    decreases lists.len() - start,
{
    if start >= lists.len() {
        Option::None
    } else if lists[start as int].plugin_type == plugin_type {
        Option::Some(start as int)
    } else {
        find_list_from(lists, plugin_type, start + 1)
    }
}

/// The index of the first sub-list whose plugin type equals `plugin_type`.
fn find_plugin_list(lists: &Vec<SoftwareRequestResponseSoftwareList>, plugin_type: &String) -> (r:
    Option<usize>)
    ensures
        (match r {
            Option::Some(k) => k < lists@.len() && find_list_from(list_views(lists@), plugin_type@, 0)
                == Option::Some(k as int),
            Option::None => find_list_from(list_views(lists@), plugin_type@, 0) is None,
        }),
{
    let mut k: usize = 0;
    while k < lists.len()
        invariant
            k <= lists@.len(),
            find_list_from(list_views(lists@), plugin_type@, 0) == find_list_from(
                list_views(lists@),
                plugin_type@,
                k as nat,
            ),
        decreases lists@.len() - k,
    {
        if lists[k].plugin_type == *plugin_type {
            return Option::Some(k);
        }
        k = k + 1;
    }
    Option::None
}

/// Possible statuses for the result of a software operation.
#[derive(Clone, Copy, Debug, PartialEq, Eq, Structural)]
pub enum OperationStatus {
    Successful,
    Failed,
    Executing,
}

/// Message payload of a software-list request.
#[derive(Clone, Debug, PartialEq, Eq)]
pub struct SoftwareListRequest {
    pub id: String,
}

impl Default for SoftwareListRequest {
    /// A software-list request under a fresh random identifier.
    fn default() -> (r: SoftwareListRequest)
        ensures
            r.id@.len() == 21,
    {
        SoftwareListRequest { id: fresh_id() }
    }
}

/// The JSON encoding of a software-list request.
pub open spec fn list_request_json_bytes(id: Seq<char>) -> Seq<u8> {
    "{\"id\":\"".spec_bytes() + json_escaped(encode_utf8(id)) + "\"}".spec_bytes()
}

impl SoftwareListRequest {
    pub fn new_with_id(id: &str) -> (r: SoftwareListRequest)
        ensures
            r.id@ == id@,
    {
        SoftwareListRequest { id: String::from_str(id) }
    }

    pub fn topic() -> (r: Topic)
        ensures
            r.name@ == SOFTWARE_LIST_REQUEST_TOPIC@,
    {
        Topic::new_unchecked(SOFTWARE_LIST_REQUEST_TOPIC)
    }

    /// The request serialized as JSON bytes.
    pub fn to_bytes(&self) -> (r: Vec<u8>)
        ensures
            r@ == list_request_json_bytes(self.id@),
    {
        let mut out: Vec<u8> = Vec::new();
        push_text(&mut out, "{\"id\":\"");
        let id_bytes = self.id.as_str().as_bytes_vec();
        push_json_escaped(&mut out, &id_bytes);
        push_text(&mut out, "\"}");
        proof {
            assert(out@ =~= list_request_json_bytes(self.id@));
        }
        out
    }

    /// Decode a request from its JSON bytes: an object with an `id` string.
    pub fn from_slice(bytes: &[u8]) -> (r: Result<SoftwareListRequest, PayloadError>)
        ensures
            (match json_string_map(bytes@) {
                Option::None => r == Err::<SoftwareListRequest, PayloadError>(
                    PayloadError::Invalid,
                ),
                Option::Some(object) => if object.contains_key("id"@) {
                    r matches Ok(request) && request.id@ == object["id"@]
                } else {
                    r == Err::<SoftwareListRequest, PayloadError>(PayloadError::Invalid)
                },
            }),
    {
        match parse_string_object(bytes) {
            Option::None => Err(PayloadError::Invalid),
            Option::Some(pairs) => {
                let id_key = String::from_str("id");
                match lookup_value(&pairs, &id_key) {
                    Option::None => Err(PayloadError::Invalid),
                    Option::Some(id) => Ok(SoftwareListRequest { id: id.clone() }),
                }
            },
        }
    }
}

/// Message payload of a software-update request: the requested changes,
/// grouped by plugin type.
#[derive(Clone, Debug, PartialEq, Eq)]
pub struct SoftwareUpdateRequest {
    pub id: String,
    pub update_list: Vec<SoftwareRequestResponseSoftwareList>,
}

/// Mathematical content of a software-update request.
#[verifier::ext_equal]
pub struct UpdateRequestView {
    pub id: Seq<char>,
    pub update_list: Seq<ListView>,
}

impl View for SoftwareUpdateRequest {
    type V = UpdateRequestView;

    open spec fn view(&self) -> UpdateRequestView {
        UpdateRequestView { id: self.id@, update_list: list_views(self.update_list@) }
    }
}

/// The plugin type a module belongs to: the one it names, or the default.
pub open spec fn plugin_type_of(module: ModuleView) -> Seq<char> {
    match module.module_type {
        Option::Some(t) => t,
        Option::None => "default"@,
    }
}

/// A batch of sub-lists after one update is filed under its plugin type:
/// appended to the first sub-list of that type, or opening a new one.
pub open spec fn filed_under(lists: Seq<ListView>, plugin_type: Seq<char>, item: ItemView) -> Seq<
    ListView,
> {
    match find_list_from(lists, plugin_type, 0) {
        Option::Some(k) => lists.update(
            k,
            ListView { modules: lists[k].modules.push(item), ..lists[k] },
        ),
        Option::None => lists.push(ListView { plugin_type, modules: seq![item] }),
    }
}

impl Default for SoftwareUpdateRequest {
    /// An empty software-update request under a fresh random identifier.
    fn default() -> (r: SoftwareUpdateRequest)
        ensures
            r.id@.len() == 21,
            r.update_list@ =~= Seq::<SoftwareRequestResponseSoftwareList>::empty(),
    {
        SoftwareUpdateRequest { id: fresh_id(), update_list: Vec::new() }
    }
}

impl SoftwareUpdateRequest {
    pub fn new_with_id(id: &str) -> (r: SoftwareUpdateRequest)
        ensures
            r.id@ == id@,
            r.update_list@ =~= Seq::<SoftwareRequestResponseSoftwareList>::empty(),
    {
        SoftwareUpdateRequest { id: String::from_str(id), update_list: Vec::new() }
    }

    pub fn topic() -> (r: Topic)
        ensures
            r.name@ == SOFTWARE_UPDATE_REQUEST_TOPIC@,
    {
        Topic::new_unchecked(SOFTWARE_UPDATE_REQUEST_TOPIC)
    }

    /// File one requested update under its plugin type: normalized first,
    /// then appended to that type's sub-list, or to a fresh sub-list if the
    /// request holds none yet.
    pub fn add_update(&mut self, update: SoftwareModuleUpdate)
        ensures
            final(self).id == old(self).id,
            ({
                let normalized = update@.normalized();
                final(self)@.update_list == filed_under(
                    old(self)@.update_list,
                    plugin_type_of(normalized.module()),
                    item_of_update(normalized),
                )
            }),
    {
        let mut update = update;
        update.normalize();
        let plugin_type: String = match &update.module().module_type {
            Option::Some(t) => t.clone(),
            Option::None => SoftwareModule::default_type(),
        };
        let item = SoftwareModuleItem::from_update(update);
        match find_plugin_list(&self.update_list, &plugin_type) {
            Option::Some(k) => {
                self.update_list[k].modules.push(item);
                proof {
                    assert(final(self)@.update_list =~~= filed_under(
                        old(self)@.update_list,
                        plugin_type@,
                        item@,
                    ));
                }
            },
            Option::None => {
                let mut modules: Vec<SoftwareModuleItem> = Vec::new();
                modules.push(item);
                self.update_list.push(
                    SoftwareRequestResponseSoftwareList { plugin_type, modules },
                );
                proof {
                    assert(final(self)@.update_list =~~= filed_under(
                        old(self)@.update_list,
                        plugin_type@,
                        item@,
                    ));
                }
            },
        }
    }

    /// Open a new sub-list of the given plugin type holding the whole batch
    /// of updates, in order.
    pub fn add_updates(&mut self, plugin_type: &str, updates: Vec<SoftwareModuleUpdate>)
        ensures
            final(self).id == old(self).id,
            final(self)@.update_list == old(self)@.update_list.push(
                ListView { plugin_type: plugin_type@, modules: items_of_updates(updates@) },
            ),
    {
        let mut rest = updates;
        let mut converted: Vec<SoftwareModuleItem> = Vec::new();
        let ghost all = rest@;
        while rest.len() > 0
            invariant
                rest@.len() <= all.len(),
                converted@.len() == all.len() - rest@.len(),
                forall|j: int|
                    0 <= j < converted@.len() ==> #[trigger] converted@[j]@ == item_of_update(
                        all[j]@,
                    ),
                rest@ =~= all.skip(all.len() - rest@.len()),
            decreases rest@.len(),
        {
            let ghost done = all.len() - rest@.len();
            let next = rest.remove(0);
            proof {
                assert(next == all[done]);
                assert(rest@ =~= all.skip(done + 1));
            }
            converted.push(SoftwareModuleItem::from_update(next));
        }
        proof {
            assert(item_views(converted@) =~~= items_of_updates(all));
        }
        self.update_list.push(
            SoftwareRequestResponseSoftwareList {
                plugin_type: String::from_str(plugin_type),
                modules: converted,
            },
        );
        proof {
            assert(final(self)@.update_list =~~= old(self)@.update_list.push(
                ListView { plugin_type: plugin_type@, modules: items_of_updates(all) },
            ));
        }
    }

    /// The plugin types this request touches, in order of their sub-lists.
    pub fn modules_types(&self) -> (r: Vec<SoftwareType>)
        ensures
            text_views(r@) == type_names(self@.update_list),
    {
        let mut types: Vec<SoftwareType> = Vec::new();
        let mut i: usize = 0;
        while i < self.update_list.len()
            invariant
                i <= self.update_list@.len(),
                types@.len() == i,
                forall|j: int|
                    0 <= j < i ==> #[trigger] types@[j]@ == self@.update_list[j].plugin_type,
            decreases self.update_list@.len() - i,
        {
            types.push(self.update_list[i].plugin_type.clone());
            proof {
                assert(self@.update_list[i as int] == self.update_list@[i as int]@);
            }
            i = i + 1;
        }
        proof {
            assert(text_views(types@) =~~= type_names(self@.update_list));
        }
        types
    }

    /// The updates requested for one module type, rebuilt from its sub-list:
    /// entries without an action are skipped, the others carry their module
    /// under that type.
    pub fn updates_for(&self, module_type: &str) -> (r: Vec<SoftwareModuleUpdate>)
        ensures
            (match find_list_from(self@.update_list, module_type@, 0) {
                Option::Some(k) => update_views(r@) == updates_of_items(
                    self@.update_list[k].modules,
                    module_type@,
                ),
                Option::None => update_views(r@) == Seq::<UpdateView>::empty(),
            }),
    {
        let mut updates: Vec<SoftwareModuleUpdate> = Vec::new();
        let key = String::from_str(module_type);
        match find_plugin_list(&self.update_list, &key) {
            Option::None => {
                proof {
                    assert(update_views(updates@) =~= Seq::<UpdateView>::empty());
                }
            },
            Option::Some(k) => {
                let items = &self.update_list[k].modules;
                let mut i: usize = 0;
                while i < items.len()
                    invariant
                        i <= items@.len(),
                        update_views(updates@) =~= updates_of_items(
                            item_views(items@).take(i as int),
                            module_type@,
                        ),
                        key@ == module_type@,
                    decreases items@.len() - i,
                {
                    let item = &items[i];
                    let module = SoftwareModule {
                        module_type: Option::Some(key.clone()),
                        name: item.name.clone(),
                        version: clone_opt_string(&item.version),
                        url: clone_opt_download(&item.url),
                        file_path: Option::None,
                    };
                    match &item.action {
                        Option::None => {},
                        Option::Some(SoftwareModuleAction::Install) => {
                            updates.push(SoftwareModuleUpdate::install(module));
                        },
                        Option::Some(SoftwareModuleAction::Remove) => {
                            updates.push(SoftwareModuleUpdate::remove(module));
                        },
                    }
                    proof {
                        assert(item_views(items@).take(i + 1 as int).drop_last() =~= item_views(
                            items@,
                        ).take(i as int));
                        assert(update_views(updates@) =~~= updates_of_items(
                            item_views(items@).take(i + 1 as int),
                            module_type@,
                        ));
                    }
                    i = i + 1;
                }
                proof {
                    assert(item_views(items@).take(items@.len() as int) =~= item_views(items@));
                    assert(item_views(items@) == self@.update_list[k as int].modules);
                }
            },
        }
        updates
    }
}

/// The module a response entry describes, under the sub-list's type.
pub open spec fn module_of_item(item: ItemView, module_type: Seq<char>) -> ModuleView {
    ModuleView {
        module_type: Option::Some(module_type),
        name: item.name,
        version: item.version,
        url: item.url,
        file_path: Option::None,
    }
}

/// The updates one entry of a sub-list stands for: none without an action.
pub open spec fn update_of_item(item: ItemView, module_type: Seq<char>) -> Seq<UpdateView> {
    match item.action {
        Option::None => Seq::empty(),
        Option::Some(SoftwareModuleAction::Install) => seq![
            UpdateView::Install { module: module_of_item(item, module_type) },
        ],
        Option::Some(SoftwareModuleAction::Remove) => seq![
            UpdateView::Remove { module: module_of_item(item, module_type) },
        ],
    }
}

/// The updates a whole sub-list stands for, in order.
pub open spec fn updates_of_items(items: Seq<ItemView>, module_type: Seq<char>) -> Seq<UpdateView>
    decreases items.len(),
{
    if items.len() == 0 {
        Seq::empty()
    } else {
        updates_of_items(items.drop_last(), module_type) + update_of_item(
            items.last(),
            module_type,
        )
    }
}

/// The content of an optional sequence of sub-lists.
pub open spec fn opt_list_views(lists: Option<Vec<SoftwareRequestResponseSoftwareList>>) -> Option<
    Seq<ListView>,
> {
    match lists {
        Option::None => Option::None,
        Option::Some(l) => Option::Some(list_views(l@)),
    }
}

/// The content of a sequence of modules.
pub open spec fn module_views(modules: Seq<SoftwareModule>) -> Seq<ModuleView> {
    modules.map_values(|module: SoftwareModule| module@)
}

/// The entries a batch of modules turns into, in order.
pub open spec fn items_of_modules(modules: Seq<SoftwareModule>) -> Seq<ItemView> {
    modules.map_values(|module: SoftwareModule| item_of_module(module@))
}

/// The modules a sequence of entries describes, all under one type.
pub open spec fn modules_of_items(items: Seq<ItemView>, plugin_type: Seq<char>) -> Seq<ModuleView> {
    items.map_values(|item: ItemView| module_of_item(item, plugin_type))
}

/// The modules one sub-list describes.
pub open spec fn modules_of_list(list: ListView) -> Seq<ModuleView> {
    modules_of_items(list.modules, list.plugin_type)
}

/// The modules a whole response lists, in order of its sub-lists.
pub open spec fn modules_of_lists(lists: Seq<ListView>) -> Seq<ModuleView>
    decreases lists.len(),
{
    if lists.len() == 0 {
        Seq::empty()
    } else {
        modules_of_lists(lists.drop_last()) + modules_of_list(lists.last())
    }
}

/// The content of a sequence of reported errors.
pub open spec fn error_views(errors: Seq<SoftwareError>) -> Seq<ErrorView> {
    errors.map_values(|error: SoftwareError| error@)
}

/// The entries a batch of reported errors turns into: errors not tied to a
/// module contribute none.
pub open spec fn items_of_errors(errors: Seq<ErrorView>) -> Seq<ItemView>
    decreases errors.len(),
{
    if errors.len() == 0 {
        Seq::empty()
    } else {
        items_of_errors(errors.drop_last()) + (match item_of_error(errors.last()) {
            Option::Some(item) => seq![item],
            Option::None => Seq::empty(),
        })
    }
}

/// Mathematical content of a software operation response.
#[verifier::ext_equal]
pub struct ResponseView {
    pub id: Seq<char>,
    pub status: OperationStatus,
    pub reason: Option<Seq<char>>,
    pub current_software_list: Option<Seq<ListView>>,
    pub failures: Seq<ListView>,
}

/// Payload format shared by the software operation responses: a status for
/// the request it answers, an optional failure reason, the current module
/// list, and per-type failure lists.
#[derive(Clone, Debug, PartialEq, Eq)]
pub struct SoftwareRequestResponse {
    pub id: String,
    pub status: OperationStatus,
    pub reason: Option<String>,
    pub current_software_list: Option<Vec<SoftwareRequestResponseSoftwareList>>,
    pub failures: Vec<SoftwareRequestResponseSoftwareList>,
}

impl View for SoftwareRequestResponse {
    type V = ResponseView;

    open spec fn view(&self) -> ResponseView {
        ResponseView {
            id: self.id@,
            status: self.status,
            reason: opt_text(self.reason),
            current_software_list: opt_list_views(self.current_software_list),
            failures: list_views(self.failures@),
        }
    }
}

impl SoftwareRequestResponse {
    pub fn new(id: &str, status: OperationStatus) -> (r: SoftwareRequestResponse)
        ensures
            r@ == (ResponseView {
                id: id@,
                status,
                reason: Option::None,
                current_software_list: Option::None,
                failures: Seq::empty(),
            }),
    {
        let r = SoftwareRequestResponse {
            id: String::from_str(id),
            status,
            reason: Option::None,
            current_software_list: Option::None,
            failures: Vec::new(),
        };
        proof {
            assert(r@ =~~= (ResponseView {
                id: id@,
                status,
                reason: Option::None,
                current_software_list: Option::None,
                failures: Seq::empty(),
            }));
        }
        r
    }

    /// Append one sub-list of modules to the current software list, opening
    /// the list if the response holds none yet. A response without recorded
    /// failures becomes successful.
    pub fn add_modules(&mut self, plugin_type: SoftwareType, modules: Vec<SoftwareModuleItem>)
        ensures
            final(self)@ == (ResponseView {
                status: if old(self)@.failures.len() == 0 {
                    OperationStatus::Successful
                } else {
                    old(self)@.status
                },
                current_software_list: Option::Some(
                    (match old(self)@.current_software_list {
                        Option::None => Seq::<ListView>::empty(),
                        Option::Some(lists) => lists,
                    }).push(ListView { plugin_type: plugin_type@, modules: item_views(modules@) }),
                ),
                ..old(self)@
            }),
    {
        if self.failures.len() == 0 {
            self.status = OperationStatus::Successful;
        }
        if self.current_software_list.is_none() {
            self.current_software_list = Option::Some(Vec::new());
        }
        match &mut self.current_software_list {
            Option::Some(list) => {
                list.push(SoftwareRequestResponseSoftwareList { plugin_type, modules });
            },
            Option::None => {
                proof {
                    assert(false);
                }
            },
        }
        proof {
            assert(final(self)@ =~~= (ResponseView {
                status: if old(self)@.failures.len() == 0 {
                    OperationStatus::Successful
                } else {
                    old(self)@.status
                },
                current_software_list: Option::Some(
                    (match old(self)@.current_software_list {
                        Option::None => Seq::<ListView>::empty(),
                        Option::Some(lists) => lists,
                    }).push(
                        ListView { plugin_type: plugin_type@, modules: item_views(modules@) },
                    ),
                ),
                ..old(self)@
            }));
        }
    }

    /// Record one sub-list of failed modules: the response becomes failed.
    pub fn add_errors(&mut self, plugin_type: SoftwareType, modules: Vec<SoftwareModuleItem>)
        ensures
            final(self)@ == (ResponseView {
                status: OperationStatus::Failed,
                failures: old(self)@.failures.push(
                    ListView { plugin_type: plugin_type@, modules: item_views(modules@) },
                ),
                ..old(self)@
            }),
    {
        self.status = OperationStatus::Failed;
        self.failures.push(SoftwareRequestResponseSoftwareList { plugin_type, modules });
        proof {
            assert(final(self)@ =~~= (ResponseView {
                status: OperationStatus::Failed,
                failures: old(self)@.failures.push(
                    ListView { plugin_type: plugin_type@, modules: item_views(modules@) },
                ),
                ..old(self)@
            }));
        }
    }

    /// The modules the response lists, flattened in order, each carrying the
    /// plugin type of its sub-list.
    pub fn modules(&self) -> (r: Vec<SoftwareModule>)
        ensures
            module_views(r@) == (match self@.current_software_list {
                Option::None => Seq::<ModuleView>::empty(),
                Option::Some(lists) => modules_of_lists(lists),
            }),
    {
        let mut collected: Vec<SoftwareModule> = Vec::new();
        match &self.current_software_list {
            Option::None => {
                proof {
                    assert(module_views(collected@) =~~= Seq::<ModuleView>::empty());
                }
            },
            Option::Some(lists) => {
                let ghost lvs = list_views(lists@);
                let mut i: usize = 0;
                while i < lists.len()
                    invariant
                        i <= lists@.len(),
                        lvs == list_views(lists@),
                        module_views(collected@) =~~= modules_of_lists(lvs.take(i as int)),
                    decreases lists@.len() - i,
                {
                    push_modules_of_list(&mut collected, &lists[i]);
                    proof {
                        assert(lvs.take(i + 1).drop_last() =~= lvs.take(i as int));
                        assert(lvs.take(i + 1).last() == lvs[i as int]);
                    }
                    i = i + 1;
                }
                proof {
                    assert(lvs.take(lists@.len() as int) =~= lvs);
                }
            },
        }
        collected
    }
}

/// Append the modules one sub-list describes, in order, each under the
/// sub-list's plugin type.
fn push_modules_of_list(
    collected: &mut Vec<SoftwareModule>,
    list: &SoftwareRequestResponseSoftwareList,
)
    ensures
        module_views(final(collected)@) == module_views(old(collected)@) + modules_of_list(list@),
{
    let ghost base = collected@.len();
    let mut j: usize = 0;
    while j < list.modules.len()
        invariant
            j <= list.modules@.len(),
            collected@.len() == base + j,
            forall|k: int| 0 <= k < base ==> collected@[k] == old(collected)@[k],
            forall|k: int|
                0 <= k < j ==> #[trigger] collected@[base + k]@ == module_of_item(
                    list.modules@[k]@,
                    list.plugin_type@,
                ),
        decreases list.modules@.len() - j,
    {
        let item = &list.modules[j];
        collected.push(
            SoftwareModule {
                module_type: Option::Some(list.plugin_type.clone()),
                name: item.name.clone(),
                version: clone_opt_string(&item.version),
                url: clone_opt_download(&item.url),
                file_path: Option::None,
            },
        );
        j = j + 1;
    }
    proof {
        let target = module_views(old(collected)@) + modules_of_list(list@);
        assert forall|k: int| 0 <= k < collected@.len() implies module_views(collected@)[k]
            == target[k] by {
            if k >= base {
                assert(collected@[base + (k - base)]@ == module_of_item(
                    list.modules@[k - base]@,
                    list.plugin_type@,
                ));
            }
        }
        assert(module_views(collected@) =~~= target);
    }
}

/// Convert a batch of modules into payload entries, in order.
fn items_from_modules(modules: Vec<SoftwareModule>) -> (r: Vec<SoftwareModuleItem>)
    ensures
        item_views(r@) == items_of_modules(modules@),
{
    let ghost all = modules@;
    let mut rest = modules;
    let mut converted: Vec<SoftwareModuleItem> = Vec::new();
    while rest.len() > 0
        invariant
            rest@.len() <= all.len(),
            converted@.len() == all.len() - rest@.len(),
            forall|j: int|
                0 <= j < converted@.len() ==> #[trigger] converted@[j]@ == item_of_module(all[j]@),
            rest@ =~= all.skip(all.len() - rest@.len()),
        decreases rest@.len(),
    {
        let ghost done = all.len() - rest@.len();
        let next = rest.remove(0);
        proof {
            assert(next == all[done]);
            assert(rest@ =~= all.skip(done + 1));
        }
        converted.push(SoftwareModuleItem::from_module(next));
    }
    proof {
        assert(item_views(converted@) =~~= items_of_modules(all));
    }
    converted
}

/// Convert a batch of reported errors into payload entries, in order,
/// skipping errors not tied to a module.
fn items_from_errors(errors: Vec<SoftwareError>) -> (r: Vec<SoftwareModuleItem>)
    ensures
        item_views(r@) == items_of_errors(error_views(errors@)),
{
    let ghost all = errors@;
    let mut rest = errors;
    let mut converted: Vec<SoftwareModuleItem> = Vec::new();
    while rest.len() > 0
        invariant
            rest@.len() <= all.len(),
            item_views(converted@) == items_of_errors(
                error_views(all.take(all.len() - rest@.len())),
            ),
            rest@ =~= all.skip(all.len() - rest@.len()),
        decreases rest@.len(),
    {
        let ghost done = all.len() - rest@.len();
        let next = rest.remove(0);
        proof {
            assert(next == all[done]);
            assert(rest@ =~= all.skip(done + 1));
        }
        match SoftwareModuleItem::from_error(next) {
            Option::Some(item) => converted.push(item),
            Option::None => {},
        }
        proof {
            assert(error_views(all.take(done + 1)).drop_last() =~~= error_views(
                all.take(done as int),
            ));
            assert(error_views(all.take(done + 1)).last() == all[done]@);
            assert(item_views(converted@) =~~= items_of_errors(error_views(all.take(done + 1))));
        }
    }
    proof {
        assert(all.take(all.len() as int) =~= all);
    }
    converted
}

/// Message payload of a software-list response.
#[derive(Clone, Debug, PartialEq, Eq)]
pub struct SoftwareListResponse {
    pub response: SoftwareRequestResponse,
}

impl View for SoftwareListResponse {
    type V = ResponseView;

    open spec fn view(&self) -> ResponseView {
        self.response@
    }
}

impl SoftwareListResponse {
    /// A response to `req`, initially still executing.
    pub fn new(req: &SoftwareListRequest) -> (r: SoftwareListResponse)
        ensures
            r@ == (ResponseView {
                id: req.id@,
                status: OperationStatus::Executing,
                reason: Option::None,
                current_software_list: Option::None,
                failures: Seq::empty(),
            }),
    {
        SoftwareListResponse {
            response: SoftwareRequestResponse::new(req.id.as_str(), OperationStatus::Executing),
        }
    }

    pub fn topic() -> (r: Topic)
        ensures
            r.name@ == SOFTWARE_LIST_RESPONSE_TOPIC@,
    {
        Topic::new_unchecked(SOFTWARE_LIST_RESPONSE_TOPIC)
    }

    /// Report one plugin type's modules as part of the current software
    /// list.
    pub fn add_modules(&mut self, plugin_type: &str, modules: Vec<SoftwareModule>)
        ensures
            final(self)@ == (ResponseView {
                status: if old(self)@.failures.len() == 0 {
                    OperationStatus::Successful
                } else {
                    old(self)@.status
                },
                current_software_list: Option::Some(
                    (match old(self)@.current_software_list {
                        Option::None => Seq::<ListView>::empty(),
                        Option::Some(lists) => lists,
                    }).push(
                        ListView {
                            plugin_type: plugin_type@,
                            modules: items_of_modules(modules@),
                        },
                    ),
                ),
                ..old(self)@
            }),
    {
        let items = items_from_modules(modules);
        self.response.add_modules(String::from_str(plugin_type), items);
    }

    /// Mark the whole operation failed for the given reason.
    pub fn set_error(&mut self, reason: &str)
        ensures
            final(self)@ == (ResponseView {
                status: OperationStatus::Failed,
                reason: Option::Some(reason@),
                ..old(self)@
            }),
    {
        self.response.status = OperationStatus::Failed;
        self.response.reason = Option::Some(String::from_str(reason));
    }

    pub fn id(&self) -> (r: &str)
        ensures
            r@ == self@.id,
    {
        self.response.id.as_str()
    }

    pub fn status(&self) -> (r: OperationStatus)
        ensures
            r == self@.status,
    {
        self.response.status
    }

    pub fn error(&self) -> (r: Option<String>)
        ensures
            opt_text(r) == self@.reason,
    {
        clone_opt_string(&self.response.reason)
    }

    pub fn modules(&self) -> (r: Vec<SoftwareModule>)
        ensures
            module_views(r@) == (match self@.current_software_list {
                Option::None => Seq::<ModuleView>::empty(),
                Option::Some(lists) => modules_of_lists(lists),
            }),
    {
        self.response.modules()
    }
}

/// Message payload of a software-update response.
#[derive(Clone, Debug, PartialEq, Eq)]
pub struct SoftwareUpdateResponse {
    pub response: SoftwareRequestResponse,
}

impl View for SoftwareUpdateResponse {
    type V = ResponseView;

    open spec fn view(&self) -> ResponseView {
        self.response@
    }
}

impl SoftwareUpdateResponse {
    /// A response to `req`, initially still executing.
    pub fn new(req: &SoftwareUpdateRequest) -> (r: SoftwareUpdateResponse)
        ensures
            r@ == (ResponseView {
                id: req.id@,
                status: OperationStatus::Executing,
                reason: Option::None,
                current_software_list: Option::None,
                failures: Seq::empty(),
            }),
    {
        SoftwareUpdateResponse {
            response: SoftwareRequestResponse::new(req.id.as_str(), OperationStatus::Executing),
        }
    }

    pub fn topic() -> (r: Topic)
        ensures
            r.name@ == SOFTWARE_UPDATE_RESPONSE_TOPIC@,
    {
        Topic::new_unchecked(SOFTWARE_UPDATE_RESPONSE_TOPIC)
    }

    /// Report one plugin type's modules as installed after the update.
    pub fn add_modules(&mut self, plugin_type: &str, modules: Vec<SoftwareModule>)
        ensures
            final(self)@ == (ResponseView {
                status: if old(self)@.failures.len() == 0 {
                    OperationStatus::Successful
                } else {
                    old(self)@.status
                },
                current_software_list: Option::Some(
                    (match old(self)@.current_software_list {
                        Option::None => Seq::<ListView>::empty(),
                        Option::Some(lists) => lists,
                    }).push(
                        ListView {
                            plugin_type: plugin_type@,
                            modules: items_of_modules(modules@),
                        },
                    ),
                ),
                ..old(self)@
            }),
    {
        let items = items_from_modules(modules);
        self.response.add_modules(String::from_str(plugin_type), items);
    }

    /// Report one plugin type's failures: the operation becomes failed.
    /// Errors not tied to a module contribute no entry.
    pub fn add_errors(&mut self, plugin_type: &str, errors: Vec<SoftwareError>)
        ensures
            final(self)@ == (ResponseView {
                status: OperationStatus::Failed,
                failures: old(self)@.failures.push(
                    ListView {
                        plugin_type: plugin_type@,
                        modules: items_of_errors(error_views(errors@)),
                    },
                ),
                ..old(self)@
            }),
    {
        let items = items_from_errors(errors);
        self.response.add_errors(String::from_str(plugin_type), items);
    }

    /// Mark the whole operation failed for the given reason.
    pub fn set_error(&mut self, reason: &str)
        ensures
            final(self)@ == (ResponseView {
                status: OperationStatus::Failed,
                reason: Option::Some(reason@),
                ..old(self)@
            }),
    {
        self.response.status = OperationStatus::Failed;
        self.response.reason = Option::Some(String::from_str(reason));
    }

    pub fn id(&self) -> (r: &str)
        ensures
            r@ == self@.id,
    {
        self.response.id.as_str()
    }

    pub fn status(&self) -> (r: OperationStatus)
        ensures
            r == self@.status,
    {
        self.response.status
    }

    pub fn error(&self) -> (r: Option<String>)
        ensures
            opt_text(r) == self@.reason,
    {
        clone_opt_string(&self.response.reason)
    }

    pub fn modules(&self) -> (r: Vec<SoftwareModule>)
        ensures
            module_views(r@) == (match self@.current_software_list {
                Option::None => Seq::<ModuleView>::empty(),
                Option::Some(lists) => modules_of_lists(lists),
            }),
    {
        self.response.modules()
    }
}

/// A command payload that could not be decoded.
#[derive(Clone, Copy, Debug, PartialEq, Eq, Structural)]
pub enum PayloadError {
    Invalid,
}

/// The status lifecycle of a device command.
#[derive(Clone, Debug, PartialEq, Eq)]
pub enum CommandStatus {
    Init,
    Executing,
    Successful,
    Failed { reason: String },
}

/// Mathematical content of a command status.
#[verifier::ext_equal]
pub enum CommandStatusView {
    Init,
    Executing,
    Successful,
    Failed { reason: Seq<char> },
}

impl View for CommandStatus {
    type V = CommandStatusView;

    open spec fn view(&self) -> CommandStatusView {
        match self {
            CommandStatus::Init => CommandStatusView::Init,
            CommandStatus::Executing => CommandStatusView::Executing,
            CommandStatus::Successful => CommandStatusView::Successful,
            CommandStatus::Failed { reason } => CommandStatusView::Failed { reason: reason@ },
        }
    }
}

impl CommandStatus {
    /// An exact copy of this status.
    pub fn duplicate(&self) -> (r: CommandStatus)
        ensures
            r == *self,
    {
        match self {
            CommandStatus::Init => CommandStatus::Init,
            CommandStatus::Executing => CommandStatus::Executing,
            CommandStatus::Successful => CommandStatus::Successful,
            CommandStatus::Failed { reason } => CommandStatus::Failed { reason: reason.clone() },
        }
    }
}

/// The status object of a restart command, as JSON text.
#[derive(Clone, Debug, PartialEq, Eq)]
pub struct RestartCommandPayload {
    pub status: CommandStatus,
}

impl View for RestartCommandPayload {
    type V = CommandStatusView;

    open spec fn view(&self) -> CommandStatusView {
        self.status@
    }
}

impl Default for RestartCommandPayload {
    /// A payload in the initial command state.
    fn default() -> (r: RestartCommandPayload)
        ensures
            r.status == CommandStatus::Init,
    {
        RestartCommandPayload { status: CommandStatus::Init }
    }
}

/// The JSON encoding of a command status object: an internally tagged
/// `status` field, with the failure reason beside it when failed.
pub open spec fn status_json_bytes(status: CommandStatusView) -> Seq<u8> {
    match status {
        CommandStatusView::Init => "{\"status\":\"init\"}".spec_bytes(),
        CommandStatusView::Executing => "{\"status\":\"executing\"}".spec_bytes(),
        CommandStatusView::Successful => "{\"status\":\"successful\"}".spec_bytes(),
        CommandStatusView::Failed { reason } => "{\"status\":\"failed\",\"reason\":\"".spec_bytes()
            + json_escaped(encode_utf8(reason)) + "\"}".spec_bytes(),
    }
}

impl RestartCommandPayload {
    /// The payload serialized as JSON bytes.
    pub fn to_bytes(&self) -> (r: Vec<u8>)
        ensures
            r@ == status_json_bytes(self@),
    {
        let mut out: Vec<u8> = Vec::new();
        match &self.status {
            CommandStatus::Init => {
                push_text(&mut out, "{\"status\":\"init\"}");
            },
            CommandStatus::Executing => {
                push_text(&mut out, "{\"status\":\"executing\"}");
            },
            CommandStatus::Successful => {
                push_text(&mut out, "{\"status\":\"successful\"}");
            },
            CommandStatus::Failed { reason } => {
                push_text(&mut out, "{\"status\":\"failed\",\"reason\":\"");
                let reason_bytes = reason.as_str().as_bytes_vec();
                push_json_escaped(&mut out, &reason_bytes);
                push_text(&mut out, "\"}");
            },
        }
        proof {
            assert(out@ =~= status_json_bytes(self@));
        }
        out
    }
}

/// The mapping a sequence of key-value pairs denotes; with duplicate keys
/// the later pair wins.
pub open spec fn pairs_to_map(pairs: Seq<(String, String)>) -> Map<Seq<char>, Seq<char>>
    decreases pairs.len(),
{
    if pairs.len() == 0 {
        Map::empty()
    } else {
        pairs_to_map(pairs.drop_last()).insert(pairs.last().0@, pairs.last().1@)
    }
}

/// No key appears twice.
pub open spec fn distinct_keys(pairs: Seq<(String, String)>) -> bool {
    forall|i: int, j: int|
        0 <= i < j < pairs.len() ==> #[trigger] pairs[i].0@ != #[trigger] pairs[j].0@
}

/// Whether a byte sequence is a JSON object whose values are all strings,
/// and if so which mapping it denotes. Both are functions of the bytes
/// alone; nothing here says what they are for given bytes.
pub uninterp spec fn json_string_map(bytes: Seq<u8>) -> Option<Map<Seq<char>, Seq<char>>>;

/// Relies on serde_json::from_slice deserializing into a map with string
/// keys and values: it accepts exactly the JSON objects whose values are all
/// strings, and yields each key once with the value its object assigns it.
/// The hash map's iteration order is arbitrary, so nothing is assumed about
/// the order of the returned pairs.
#[verifier::external_body]
fn parse_string_object(bytes: &[u8]) -> (r: Option<Vec<(String, String)>>)
    ensures
        r is Some <==> json_string_map(bytes@) is Some,
        (match r {
            Option::Some(pairs) => distinct_keys(pairs@) && pairs_to_map(pairs@)
                == json_string_map(bytes@).unwrap(),
            Option::None => true,
        }),
{
    match serde_json::from_slice::<std::collections::HashMap<String, String>>(bytes) {
        Ok(object) => Some(object.into_iter().collect()),
        Err(_) => None,
    }
}

proof fn lemma_pairs_map_contains(pairs: Seq<(String, String)>, key: Seq<char>)
    ensures
        pairs_to_map(pairs).contains_key(key) <==> exists|i: int|
            0 <= i < pairs.len() && #[trigger] pairs[i].0@ == key,
    decreases pairs.len(),
{
    if pairs.len() > 0 {
        lemma_pairs_map_contains(pairs.drop_last(), key);
        if pairs.last().0@ == key {
            assert(pairs[pairs.len() - 1].0@ == key);
        } else if pairs_to_map(pairs).contains_key(key) {
            let i = choose|i: int| 0 <= i < pairs.drop_last().len() && #[trigger] pairs.drop_last()[i].0@ == key;
            assert(pairs[i].0@ == key);
        } else {
            assert forall|i: int| 0 <= i < pairs.len() implies #[trigger] pairs[i].0@ != key by {
                if i < pairs.len() - 1 {
                    assert(pairs.drop_last()[i] == pairs[i]);
                }
            }
        }
    }
}

proof fn lemma_pairs_map_value(pairs: Seq<(String, String)>, i: int)
    requires
        distinct_keys(pairs),
        0 <= i < pairs.len(),
    ensures
        pairs_to_map(pairs).contains_key(pairs[i].0@),
        pairs_to_map(pairs)[pairs[i].0@] == pairs[i].1@,
    decreases pairs.len(),
{
    if i < pairs.len() - 1 {
        assert forall|a: int, b: int| 0 <= a < b < pairs.drop_last().len() implies #[trigger] pairs.drop_last()[a].0@
            != #[trigger] pairs.drop_last()[b].0@ by {
            assert(pairs.drop_last()[a] == pairs[a]);
            assert(pairs.drop_last()[b] == pairs[b]);
        }
        lemma_pairs_map_value(pairs.drop_last(), i);
        assert(pairs.drop_last()[i] == pairs[i]);
        assert(pairs[i].0@ != pairs[pairs.len() - 1].0@);
    }
}

/// The value the object assigns to `key`, scanning the pairs.
fn lookup_value<'a>(pairs: &'a Vec<(String, String)>, key: &String) -> (r: Option<&'a String>)
    requires
        distinct_keys(pairs@),
    ensures
        (match r {
            Option::Some(value) => pairs_to_map(pairs@).contains_key(key@) && value@
                == pairs_to_map(pairs@)[key@],
            Option::None => !pairs_to_map(pairs@).contains_key(key@),
        }),
{
    let mut i: usize = 0;
    while i < pairs.len()
        invariant
            i <= pairs@.len(),
            distinct_keys(pairs@),
            forall|j: int| 0 <= j < i ==> #[trigger] pairs@[j].0@ != key@,
        decreases pairs@.len() - i,
    {
        if pairs[i].0 == *key {
            proof {
                lemma_pairs_map_value(pairs@, i as int);
            }
            return Option::Some(&pairs[i].1);
        }
        i = i + 1;
    }
    proof {
        lemma_pairs_map_contains(pairs@, key@);
    }
    Option::None
}

/// The command status a parsed object denotes: the `status` field selects
/// the state, and a failed state requires its `reason` beside it.
pub open spec fn status_of_object(object: Map<Seq<char>, Seq<char>>) -> Result<
    CommandStatusView,
    PayloadError,
> {
    if !object.contains_key("status"@) {
        Err(PayloadError::Invalid)
    } else if object["status"@] == "init"@ {
        Ok(CommandStatusView::Init)
    } else if object["status"@] == "executing"@ {
        Ok(CommandStatusView::Executing)
    } else if object["status"@] == "successful"@ {
        Ok(CommandStatusView::Successful)
    } else if object["status"@] == "failed"@ {
        if object.contains_key("reason"@) {
            Ok(CommandStatusView::Failed { reason: object["reason"@] })
        } else {
            Err(PayloadError::Invalid)
        }
    } else {
        Err(PayloadError::Invalid)
    }
}

/// Decode the command status a parsed object denotes.
fn status_from_pairs(pairs: &Vec<(String, String)>) -> (r: Result<
    RestartCommandPayload,
    PayloadError,
>)
    requires
        distinct_keys(pairs@),
    ensures
        (match (r, status_of_object(pairs_to_map(pairs@))) {
            (Ok(payload), Ok(status)) => payload@ == status,
            (Err(actual), Err(expected)) => actual == expected,
            _ => false,
        }),
{
    let status_key = String::from_str("status");
    match lookup_value(pairs, &status_key) {
        Option::None => Err(PayloadError::Invalid),
        Option::Some(status_text) => {
            if *status_text == String::from_str("init") {
                Ok(RestartCommandPayload { status: CommandStatus::Init })
            } else if *status_text == String::from_str("executing") {
                Ok(RestartCommandPayload { status: CommandStatus::Executing })
            } else if *status_text == String::from_str("successful") {
                Ok(RestartCommandPayload { status: CommandStatus::Successful })
            } else if *status_text == String::from_str("failed") {
                let reason_key = String::from_str("reason");
                match lookup_value(pairs, &reason_key) {
                    Option::Some(reason) => Ok(
                        RestartCommandPayload {
                            status: CommandStatus::Failed { reason: reason.clone() },
                        },
                    ),
                    Option::None => Err(PayloadError::Invalid),
                }
            } else {
                Err(PayloadError::Invalid)
            }
        },
    }
}

/// Command to restart a device.
#[derive(Clone, Debug, PartialEq, Eq)]
pub struct RestartCommand {
    pub target: EntityTopicId,
    pub cmd_id: String,
    pub payload: RestartCommandPayload,
}

impl RestartCommand {
    /// A restart command for a target device, under a fresh command
    /// identifier and in the initial state.
    pub fn new(target: EntityTopicId) -> (r: RestartCommand)
        ensures
            r.target == target,
            r.cmd_id@.len() == 21,
            r.payload.status == CommandStatus::Init,
    {
        RestartCommand {
            target,
            cmd_id: fresh_id(),
            payload: RestartCommandPayload { status: CommandStatus::Init },
        }
    }

    /// The same command under a given command identifier.
    pub fn with_id(self, cmd_id: String) -> (r: RestartCommand)
        ensures
            r == (RestartCommand { cmd_id, ..self }),
    {
        RestartCommand { cmd_id, ..self }
    }

    /// The restart command received on a command topic: an empty payload
    /// clears the command, anything else must be a status object.
    pub fn try_from(target: EntityTopicId, cmd_id: String, bytes: &[u8]) -> (r: Result<
        Option<RestartCommand>,
        PayloadError,
    >)
        ensures
            bytes@.len() == 0 ==> r == Ok::<Option<RestartCommand>, PayloadError>(Option::None),
            bytes@.len() > 0 ==> (match json_string_map(bytes@) {
                Option::None => r == Err::<Option<RestartCommand>, PayloadError>(
                    PayloadError::Invalid,
                ),
                Option::Some(object) => (match status_of_object(object) {
                    Err(expected) => r == Err::<Option<RestartCommand>, PayloadError>(expected),
                    Ok(status) => r matches Ok(Some(command)) && command.target == target
                        && command.cmd_id == cmd_id && command.payload@ == status,
                }),
            }),
    {
        if bytes.len() == 0 {
            Ok(Option::None)
        } else {
            match parse_string_object(bytes) {
                Option::None => Err(PayloadError::Invalid),
                Option::Some(pairs) => {
                    match status_from_pairs(&pairs) {
                        Err(error) => Err(error),
                        Ok(payload) => Ok(
                            Option::Some(RestartCommand { target, cmd_id, payload }),
                        ),
                    }
                },
            }
        }
    }

    /// The current status of the command.
    pub fn status(&self) -> (r: CommandStatus)
        ensures
            r == self.payload.status,
    {
        self.payload.status.duplicate()
    }

    /// The same command with the given status.
    pub fn with_status(self, status: CommandStatus) -> (r: RestartCommand)
        ensures
            r == (RestartCommand { payload: (RestartCommandPayload { status }), ..self }),
    {
        RestartCommand { payload: RestartCommandPayload { status }, ..self }
    }

    /// The same command, failed for the given reason.
    pub fn with_error(self, reason: String) -> (r: RestartCommand)
        ensures
            r == (RestartCommand {
                payload: (RestartCommandPayload { status: CommandStatus::Failed { reason } }),
                ..self
            }),
    {
        RestartCommand {
            payload: RestartCommandPayload { status: CommandStatus::Failed { reason } },
            ..self
        }
    }

    /// The topic identifier of the target device.
    pub fn topic_id(&self) -> (r: &EntityTopicId)
        ensures
            *r == self.target,
    {
        &self.target
    }

    /// The channel this command runs on.
    pub fn channel(&self) -> (r: Channel)
        ensures
            r == (Channel::Command {
                operation: OperationType::Restart,
                cmd_id: self.cmd_id,
            }),
    {
        Channel::Command { operation: OperationType::Restart, cmd_id: self.cmd_id.clone() }
    }

    /// The topic this command runs on.
    pub fn topic(&self, schema: &MqttSchema) -> (r: Topic)
        ensures
            r.name@ == schema.root@ + "/"@ + self.target.name@ + channel_suffix(
                Channel::Command { operation: OperationType::Restart, cmd_id: self.cmd_id },
            ),
    {
        let channel = self.channel();
        schema.topic_for(&self.target, &channel)
    }

    /// The retained message registering `restart` as a supported command of
    /// the target device.
    pub fn capability_message(schema: &MqttSchema, target: &EntityTopicId) -> (r: MqttMessage)
        ensures
            r.topic.name@ == schema.root@ + "/"@ + target.name@ + channel_suffix(
                Channel::CommandMetadata { operation: OperationType::Restart },
            ),
            r.payload@ == "{}".spec_bytes(),
            r.qos == QoS::AtLeastOnce,
            r.retain,
    {
        let meta_topic = schema.topic_for(
            target,
            &Channel::CommandMetadata { operation: OperationType::Restart },
        );
        let mut payload: Vec<u8> = Vec::new();
        push_text(&mut payload, "{}");
        proof {
            assert(payload@ =~= "{}".spec_bytes());
        }
        MqttMessage::new(&meta_topic, payload).with_qos(QoS::AtLeastOnce).with_retain()
    }

    /// The retained message carrying this command's current state.
    pub fn command_message(&self, schema: &MqttSchema) -> (r: MqttMessage)
        ensures
            r.topic.name@ == schema.root@ + "/"@ + self.target.name@ + channel_suffix(
                Channel::Command { operation: OperationType::Restart, cmd_id: self.cmd_id },
            ),
            r.payload@ == status_json_bytes(self.payload@),
            r.qos == QoS::AtLeastOnce,
            r.retain,
    {
        let topic = self.topic(schema);
        let payload = self.payload.to_bytes();
        MqttMessage::new(&topic, payload).with_qos(QoS::AtLeastOnce).with_retain()
    }

    /// The retained empty message clearing this command from its topic.
    pub fn clearing_message(&self, schema: &MqttSchema) -> (r: MqttMessage)
        ensures
            r.topic.name@ == schema.root@ + "/"@ + self.target.name@ + channel_suffix(
                Channel::Command { operation: OperationType::Restart, cmd_id: self.cmd_id },
            ),
            r.payload@ == Seq::<u8>::empty(),
            r.qos == QoS::AtLeastOnce,
            r.retain,
    {
        let topic = self.topic(schema);
        let payload: Vec<u8> = Vec::new();
        MqttMessage::new(&topic, payload).with_qos(QoS::AtLeastOnce).with_retain()
    }
}

/// The log types a device offers for upload.
#[derive(Clone, Debug, PartialEq, Eq)]
pub struct LogMetadata {
    pub types: Vec<String>,
}

/// The configuration types a device offers.
#[derive(Clone, Debug, PartialEq, Eq)]
pub struct ConfigMetadata {
    pub types: Vec<String>,
}

/// Command payload asking for a log extract to be uploaded. The two dates
/// bound the extract and are carried as RFC 3339 text.
#[derive(Clone, Debug, PartialEq, Eq)]
pub struct LogUploadCmdPayload {
    pub status: CommandStatus,
    pub tedge_url: String,
    pub log_type: String,
    pub date_from: String,
    pub date_to: String,
    pub search_text: Option<String>,
    pub lines: usize,
}

impl LogUploadCmdPayload {
    pub fn executing(&mut self)
        ensures
            *final(self) == (LogUploadCmdPayload { status: CommandStatus::Executing, ..*old(self) }),
    {
        self.status = CommandStatus::Executing;
    }

    pub fn successful(&mut self)
        ensures
            *final(self) == (LogUploadCmdPayload {
                status: CommandStatus::Successful,
                ..*old(self)
            }),
    {
        self.status = CommandStatus::Successful;
    }

    pub fn failed(&mut self, reason: String)
        ensures
            *final(self) == (LogUploadCmdPayload {
                status: (CommandStatus::Failed { reason }),
                ..*old(self)
            }),
    {
        self.status = CommandStatus::Failed { reason };
    }
}

/// Command payload asking for a configuration snapshot to be uploaded.
#[derive(Clone, Debug, PartialEq, Eq)]
pub struct ConfigSnapshotCmdPayload {
    pub status: CommandStatus,
    pub tedge_url: String,
    pub config_type: String,
    pub path: Option<String>,
}

impl ConfigSnapshotCmdPayload {
    pub fn executing(&mut self)
        ensures
            *final(self) == (ConfigSnapshotCmdPayload {
                status: CommandStatus::Executing,
                ..*old(self)
            }),
    {
        self.status = CommandStatus::Executing;
    }

    pub fn successful(&mut self, path: String)
        ensures
            *final(self) == (ConfigSnapshotCmdPayload {
                status: CommandStatus::Successful,
                path: Option::Some(path),
                ..*old(self)
            }),
    {
        self.status = CommandStatus::Successful;
        self.path = Option::Some(path);
    }

    pub fn failed(&mut self, reason: String)
        ensures
            *final(self) == (ConfigSnapshotCmdPayload {
                status: (CommandStatus::Failed { reason }),
                ..*old(self)
            }),
    {
        self.status = CommandStatus::Failed { reason };
    }
}

/// Command payload asking for a configuration file to be replaced from a
/// remote copy.
#[derive(Clone, Debug, PartialEq, Eq)]
pub struct ConfigUpdateCmdPayload {
    pub status: CommandStatus,
    pub tedge_url: String,
    pub remote_url: String,
    pub config_type: String,
    pub path: Option<String>,
}

impl ConfigUpdateCmdPayload {
    pub fn executing(&mut self)
        ensures
            *final(self) == (ConfigUpdateCmdPayload {
                status: CommandStatus::Executing,
                ..*old(self)
            }),
    {
        self.status = CommandStatus::Executing;
    }

    pub fn successful(&mut self, path: String)
        ensures
            *final(self) == (ConfigUpdateCmdPayload {
                status: CommandStatus::Successful,
                path: Option::Some(path),
                ..*old(self)
            }),
    {
        self.status = CommandStatus::Successful;
        self.path = Option::Some(path);
    }

    pub fn failed(&mut self, reason: String)
        ensures
            *final(self) == (ConfigUpdateCmdPayload {
                status: (CommandStatus::Failed { reason }),
                ..*old(self)
            }),
    {
        self.status = CommandStatus::Failed { reason };
    }
}

} // verus!
