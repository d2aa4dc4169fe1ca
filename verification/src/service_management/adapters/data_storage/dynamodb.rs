//! DynamoDB.
use vstd::prelude::*;
use vstd::string::*;

use crate::service_management::actions::{
    require_name_payload, require_typed_confirmation, required_text, typed_confirmation,
};
use crate::service_management::adapters::payload::{optional_payload_text_or, optional_text};
use crate::service_management::adapters::{
    action_result, build_inventory, call_of, destructive, lemma_not_destructive, planned_call,
    planned_done, planned_outcome, result_view, shows, summary, text_or, texts_of, then_text,
    CallReply, CallView, Planned, PlannedView,
};
use crate::service_management::errors::{
    unsupported_operation_error, ErrorView, ServiceManagementError,
};
use crate::service_management::models::{
    single_kind_tab, summary_views, tab, tab_of_kinds, tab_views, ActionResult, ActionResultView,
    InventoryView, ResourceSummary, ResourceTab, ServiceActionRequest, ServiceInventory,
    ServiceSupportLevel, SummaryView, TabView,
};
use crate::service_management::text_map::TextMap;
use crate::text::{concat2, concat3, decimal, int_text, text_eq};

verus! {

/// The tabs of the DynamoDB inventory page.
pub open spec fn inventory_tabs() -> Seq<TabView> {
    seq![
        single_kind_tab("tables"@, "Tables"@, "table"@, "No DynamoDB tables were found in the local emulator."@),
        TabView {
            key: "indexes"@,
            label: "Indexes"@,
            kinds: seq!["global-secondary-index"@, "local-secondary-index"@],
            empty_message: "No DynamoDB secondary indexes are attached."@,
        },
        single_kind_tab("streams"@, "Streams"@, "stream"@, "No DynamoDB streams are enabled."@),
        single_kind_tab("ttl"@, "TTL"@, "ttl"@, "No TTL metadata is loaded."@),
        single_kind_tab("backups"@, "Backups"@, "backup"@, "No DynamoDB backups are loaded."@),
    ]
}

/// The tabs of the DynamoDB inventory page.
pub fn tabs() -> (t: Vec<ResourceTab>)
    ensures
        tab_views(t@) == inventory_tabs(),
{
    let mut t: Vec<ResourceTab> = Vec::new();
    t.push(tab("tables", "Tables", "table", "No DynamoDB tables were found in the local emulator."));
    let mut kinds: Vec<String> = Vec::new();
    kinds.push(String::from_str("global-secondary-index"));
    kinds.push(String::from_str("local-secondary-index"));
    assert(kinds.deep_view() =~= seq!["global-secondary-index"@, "local-secondary-index"@]);
    t.push(tab_of_kinds("indexes", "Indexes", kinds, "No DynamoDB secondary indexes are attached."));
    t.push(tab("streams", "Streams", "stream", "No DynamoDB streams are enabled."));
    t.push(tab("ttl", "TTL", "ttl", "No TTL metadata is loaded."));
    t.push(tab("backups", "Backups", "backup", "No DynamoDB backups are loaded."));
    assert(tab_views(t@) =~= inventory_tabs());
    t
}

/// The resources listed for one table: the table, its global secondary
/// indexes (name and status, when known) and its local secondary indexes.
pub open spec fn table_listing(
    table_name: Seq<char>,
    status: Option<Seq<char>>,
    created_at: Option<Seq<char>>,
    item_count: int,
    size_bytes: int,
    global_indexes: Seq<(Seq<char>, Option<Seq<char>>)>,
    local_indexes: Seq<Seq<char>>,
    r: Seq<SummaryView>,
) -> bool {
    let g = global_indexes.len() as int;
    let l = local_indexes.len() as int;
    &&& r.len() == 1 + g + l
    &&& shows(
        r[0],
        "table/"@ + table_name,
        table_name,
        "table"@,
        text_or(status, "unknown"@),
        created_at,
        None,
        map!["item_count"@ => decimal(item_count), "table_size_bytes"@ => decimal(size_bytes)],
    )
    &&& forall|i: int|
        1 <= i <= g ==> shows(
            #[trigger] r[i],
            "gsi/"@ + table_name + "/"@ + global_indexes[i - 1].0,
            global_indexes[i - 1].0,
            "global-secondary-index"@,
            text_or(global_indexes[i - 1].1, "unknown"@),
            None,
            None,
            map!["table"@ => table_name],
        )
    &&& forall|i: int|
        g < i <= g + l ==> shows(
            #[trigger] r[i],
            "lsi/"@ + table_name + "/"@ + local_indexes[i - 1 - g],
            local_indexes[i - 1 - g],
            "local-secondary-index"@,
            "attached"@,
            None,
            None,
            map!["table"@ => table_name],
        )
}

/// The views of the global secondary indexes of a table.
pub open spec fn index_views(v: Seq<(String, Option<String>)>) -> Seq<(Seq<char>, Option<Seq<char>>)> {
    v.map_values(|x: (String, Option<String>)| (x.0@, x.1.deep_view()))
}

/// The attributes of an index entry: the table it belongs to.
fn index_attributes(table_name: &str) -> (m: TextMap<String>)
    ensures
        m.wf(),
        texts_of(m@) == map!["table"@ => table_name@],
{
    let mut m: TextMap<String> = TextMap::new();
    m.insert(String::from_str("table"), String::from_str(table_name));
    proof {
        assert(texts_of(m@) =~= map!["table"@ => table_name@]);
    }
    m
}

/// The resources listed for the table `table_name`.
pub fn table_resources(
    table_name: &str,
    status: Option<String>,
    created_at: Option<String>,
    item_count: i64,
    size_bytes: i64,
    global_indexes: &Vec<(String, Option<String>)>,
    local_indexes: &Vec<String>,
) -> (r: Vec<ResourceSummary>)
    ensures
        forall|i: int| 0 <= i < r@.len() ==> (#[trigger] r@[i]).wf(),
        table_listing(
            table_name@,
            status.deep_view(),
            created_at.deep_view(),
            item_count as int,
            size_bytes as int,
            index_views(global_indexes@),
            local_indexes.deep_view(),
            summary_views(r@),
        ),
{
    let ghost gv = index_views(global_indexes@);
    let ghost lv = local_indexes.deep_view();
    let mut attributes: TextMap<String> = TextMap::new();
    let items = int_text(item_count);
    let size = int_text(size_bytes);
    attributes.insert(String::from_str("item_count"), items);
    attributes.insert(String::from_str("table_size_bytes"), size);
    proof {
        assert(texts_of(attributes@) =~= map![
            "item_count"@ => decimal(item_count as int),
            "table_size_bytes"@ => decimal(size_bytes as int)
        ]);
    }
    let status = match status {
        Some(s) => s,
        None => String::from_str("unknown"),
    };
    let mut out: Vec<ResourceSummary> = Vec::new();
    out.push(
        summary(concat2("table/", table_name), String::from_str(table_name), "table", status, created_at, None, attributes),
    );
    let ghost first = out@[0]@;
    let g = global_indexes.len();
    let mut i: usize = 0;
    while i < g
        invariant
            0 <= i <= g,
            g == global_indexes@.len(),
            gv == index_views(global_indexes@),
            out.len() == i + 1,
            forall|k: int| 0 <= k < out@.len() ==> (#[trigger] out@[k]).wf(),
            out@[0]@ == first,
            forall|j: int|
                1 <= j <= i ==> shows(
                    #[trigger] out@[j]@,
                    "gsi/"@ + table_name@ + "/"@ + gv[j - 1].0,
                    gv[j - 1].0,
                    "global-secondary-index"@,
                    text_or(gv[j - 1].1, "unknown"@),
                    None,
                    None,
                    map!["table"@ => table_name@],
                ),
        decreases g - i,
    {
        let index_status = match &global_indexes[i].1 {
            Some(s) => s.clone(),
            None => String::from_str("unknown"),
        };
        let mut id = concat3("gsi/", table_name, "/");
        id.append(global_indexes[i].0.as_str());
        out.push(
            summary(
                id,
                global_indexes[i].0.clone(),
                "global-secondary-index",
                index_status,
                None,
                None,
                index_attributes(table_name),
            ),
        );
        i = i + 1;
    }
    let l = local_indexes.len();
    let mut k: usize = 0;
    while k < l
        invariant
            0 <= k <= l,
            l == local_indexes@.len(),
            lv == local_indexes.deep_view(),
            gv == index_views(global_indexes@),
            g == global_indexes@.len(),
            out.len() == g + k + 1,
            forall|x: int| 0 <= x < out@.len() ==> (#[trigger] out@[x]).wf(),
            out@[0]@ == first,
            forall|j: int|
                1 <= j <= g ==> shows(
                    #[trigger] out@[j]@,
                    "gsi/"@ + table_name@ + "/"@ + gv[j - 1].0,
                    gv[j - 1].0,
                    "global-secondary-index"@,
                    text_or(gv[j - 1].1, "unknown"@),
                    None,
                    None,
                    map!["table"@ => table_name@],
                ),
            forall|j: int|
                g < j <= g + k ==> shows(
                    #[trigger] out@[j]@,
                    "lsi/"@ + table_name@ + "/"@ + lv[j - 1 - g],
                    lv[j - 1 - g],
                    "local-secondary-index"@,
                    "attached"@,
                    None,
                    None,
                    map!["table"@ => table_name@],
                ),
        decreases l - k,
    {
        let mut id = concat3("lsi/", table_name, "/");
        id.append(local_indexes[k].as_str());
        out.push(
            summary(
                id,
                local_indexes[k].clone(),
                "local-secondary-index",
                String::from_str("attached"),
                None,
                None,
                index_attributes(table_name),
            ),
        );
        k = k + 1;
    }
    proof {
        let v = summary_views(out@);
        assert forall|j: int| 0 <= j < out@.len() implies v[j] == out@[j]@ by {}
    }
    out
}

/// A call to DynamoDB, with its validated inputs.
#[derive(Debug, Clone)]
pub enum Call {
    CreateTable { table_name: String, partition_key: String },
    DeleteTable { table_name: String },
}

impl View for Call {
    type V = CallView;

    open spec fn view(&self) -> CallView {
        match self {
            Call::CreateTable { table_name, partition_key } => call_of(
                "create_table"@,
                seq![table_name@, partition_key@],
                seq![],
            ),
            Call::DeleteTable { table_name } => call_of(
                "delete_table"@,
                seq![table_name@],
                seq![],
            ),
        }
    }
}

/// What an action request on DynamoDB asks for.
pub open spec fn action_plan(request: ServiceActionRequest) -> Result<PlannedView, ErrorView> {
    let a = request.action@;
    if a == "create_table"@ {
        then_text(
            required_text(request, "table_name"@),
            |table_name: Seq<char>|
                {
                    let partition_key = text_or(optional_text(request, "partition_key"@), "id"@);
                    planned_call(a, seq![table_name, partition_key], seq![])
                },
        )
    } else if a == "delete_table"@ {
        then_text(
            typed_confirmation(request),
            |table_name: Seq<char>|
                planned_call(a, seq![table_name], seq![]),
        )
    } else if a == "refresh_table_metadata"@ {
        planned_done(false, "Table metadata refresh completed."@, request.resource_id.deep_view())
    } else if a == "toggle_ttl"@ {
        Err(unsupported_operation_error("dynamodb"@, a, "TTL changes are disabled until Floci confirms UpdateTimeToLive support."@))
    } else {
        Err(unsupported_operation_error("dynamodb"@, a, "DynamoDB action `"@ + a + "` is not supported."@))
    }
}

/// Validates an action request on DynamoDB and decides what to do.
pub fn plan_action(request: &ServiceActionRequest) -> (r: Result<Planned<Call>, ServiceManagementError>)
    requires
        request.payload.wf(),
    ensures
        planned_outcome(r) == action_plan(*request),
        r matches Ok(Planned::Call(Call::CreateTable { table_name, .. })) ==> {
            &&& request.action@ == "create_table"@
            &&& required_text(*request, "table_name"@) == Ok::<Seq<char>, ErrorView>(table_name@)
        },
        r matches Ok(Planned::Call(Call::DeleteTable { table_name })) ==> {
            &&& request.action@ == "delete_table"@
            &&& typed_confirmation(*request) == Ok::<Seq<char>, ErrorView>(table_name@)
        },
{
    let action = request.action.as_str();
    if text_eq(action, "create_table") {
        let table_name = require_name_payload(request, "table_name")?;
        let partition_key = optional_payload_text_or(request, "partition_key", "id");
        Ok(Planned::Call(Call::CreateTable { table_name, partition_key }))
    } else if text_eq(action, "delete_table") {
        let table_name = require_typed_confirmation(request)?;
        Ok(Planned::Call(Call::DeleteTable { table_name }))
    } else if text_eq(action, "refresh_table_metadata") {
        let message = String::from_str("Table metadata refresh completed.");
        Ok(Planned::Done(action_result(false, message, request.resource_id.clone())))
    } else if text_eq(action, "toggle_ttl") {
        Err(ServiceManagementError::unsupported_operation("dynamodb", action, "TTL changes are disabled until Floci confirms UpdateTimeToLive support."))
    } else {
        Err(ServiceManagementError::unsupported_operation("dynamodb", action, concat3("DynamoDB action `", action, "` is not supported.").as_str()))
    }
}

/// The result of `call` once it succeeded with `reply`.
pub open spec fn result_of(call: Call, _reply: CallReply) -> ActionResultView {
    match call {
        Call::CreateTable { table_name, .. } => result_view(
            true,
            "Created DynamoDB table `"@ + table_name@ + "`."@,
            Some("table/"@ + table_name@),
        ),
        Call::DeleteTable { table_name } => result_view(
            true,
            "Deleted DynamoDB table `"@ + table_name@ + "`."@,
            Some("table/"@ + table_name@),
        ),
    }
}

/// The result reported once `call` succeeded with `reply`.
pub fn completed(call: &Call, _reply: &CallReply) -> (r: ActionResult)
    ensures
        r@ == result_of(*call, *_reply),
{
    match call {
        Call::CreateTable { table_name, .. } => {
            let mut message = String::from_str("Created DynamoDB table `");
            message.append(table_name.as_str());
            message.append("`.");
            let mut id = String::from_str("table/");
            id.append(table_name.as_str());
            action_result(true, message, Some(id))
        },
        Call::DeleteTable { table_name } => {
            let mut message = String::from_str("Deleted DynamoDB table `");
            message.append(table_name.as_str());
            message.append("`.");
            let mut id = String::from_str("table/");
            id.append(table_name.as_str());
            action_result(true, message, Some(id))
        },
    }
}

/// Every call planned for an action request performs the requested action.
pub proof fn lemma_plan_performs_requested_action(request: ServiceActionRequest)
    ensures
        action_plan(request) matches Ok(PlannedView::Call(c)) ==> c.name == request.action@,
{
}

/// A destructive action is only planned once the typed confirmation matches.
pub proof fn lemma_destructive_actions_are_confirmed(request: ServiceActionRequest)
    ensures
        action_plan(request) is Ok && destructive(request.action@) ==> typed_confirmation(request) is Ok,
{
    reveal_strlit("create_table");
    lemma_not_destructive("create_table"@);
    reveal_strlit("refresh_table_metadata");
    lemma_not_destructive("refresh_table_metadata"@);
}

/// The operations the DynamoDB page lists as unavailable.
pub open spec fn unsupported_operations() -> Seq<Seq<char>> {
    seq!["toggle_ttl"@]
}

/// The name under which the service's inventory page is shown.
pub open spec fn label() -> Seq<char> {
    "DynamoDB"@
}

/// How far this adapter supports the service: it manages its resources.
pub open spec fn support_level() -> ServiceSupportLevel {
    ServiceSupportLevel::Managed
}

/// The DynamoDB inventory page: the listed `resources` under the DynamoDB tabs, refreshed
/// at `refreshed_at`.
pub fn inventory(
    resources: Vec<ResourceSummary>,
    refreshed_at: String,
) -> (inv: ServiceInventory)
    ensures
        inv@ == (InventoryView {
            service_key: "dynamodb"@,
            service_label: label(),
            support_level: support_level(),
            refreshed_at: refreshed_at@,
            tabs: inventory_tabs(),
            resources: summary_views(resources@),
            unsupported_operations: unsupported_operations(),
        }),
{
    let mut ops: Vec<String> = Vec::new();
    ops.push(String::from_str("toggle_ttl"));
    proof {
        assert(ops.deep_view() =~= unsupported_operations());
    }
    build_inventory(
        "dynamodb",
        "DynamoDB",
        ServiceSupportLevel::Managed,
        refreshed_at,
        tabs(),
        resources,
        ops,
    )
}

} // verus!
