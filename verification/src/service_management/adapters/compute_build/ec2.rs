//! EC2.
use vstd::prelude::*;
use vstd::string::*;

use crate::service_management::actions::{require_typed_confirmation, typed_confirmation};
use crate::service_management::adapters::payload::{require_resource_id, selected_resource};
use crate::service_management::adapters::{
    action_result, build_inventory, call_of, destructive, lemma_not_destructive, no_attributes,
    number_text, optional_number_text, pairs_map, planned_call, planned_outcome, put_attr,
    result_view, shows, shows_tagged, summary, tagged_summary, text_or, text_or_default, texts_of,
    then_text, unsupported_action, unsupported_action_error, with_attr, CallReply, CallView,
    Planned, PlannedView,
};
use crate::service_management::adapters::compute_build::{complete_tags, tag_views, tags_to_map};
use crate::service_management::errors::{ErrorView, ServiceManagementError};
use crate::service_management::models::{
    single_kind_tab, summary_views, tab, tab_views, ActionResult, ActionResultView, InventoryView,
    ResourceSummary, ResourceTab, ServiceActionRequest, ServiceInventory, ServiceSupportLevel,
    TabView,
};
use crate::service_management::text_map::TextMap;
use crate::text::{concat2, digits_of, nat_text, text_eq};

verus! {

/// The tabs of the EC2 inventory page.
pub open spec fn inventory_tabs() -> Seq<TabView> {
    seq![
        single_kind_tab("instances"@, "Instances"@, "instance"@, "No EC2 instances were found."@),
        single_kind_tab("vpcs"@, "VPCs"@, "vpc"@, "No EC2 VPCs are loaded."@),
        single_kind_tab("subnets"@, "Subnets"@, "subnet"@, "No EC2 subnets are loaded."@),
        single_kind_tab("security-groups"@, "Security Groups"@, "security-group"@, "No EC2 security groups are loaded."@),
        single_kind_tab("key-pairs"@, "Key Pairs"@, "key-pair"@, "No EC2 key pairs are loaded."@),
        single_kind_tab("images"@, "Images"@, "image"@, "No local EC2 images are loaded."@),
        single_kind_tab("volumes"@, "Volumes"@, "volume"@, "No EC2 volumes are loaded."@),
    ]
}

/// The tabs of the EC2 inventory page.
pub fn tabs() -> (t: Vec<ResourceTab>)
    ensures
        tab_views(t@) == inventory_tabs(),
{
    let mut t: Vec<ResourceTab> = Vec::new();
    t.push(tab("instances", "Instances", "instance", "No EC2 instances were found."));
    t.push(tab("vpcs", "VPCs", "vpc", "No EC2 VPCs are loaded."));
    t.push(tab("subnets", "Subnets", "subnet", "No EC2 subnets are loaded."));
    t.push(tab("security-groups", "Security Groups", "security-group", "No EC2 security groups are loaded."));
    t.push(tab("key-pairs", "Key Pairs", "key-pair", "No EC2 key pairs are loaded."));
    t.push(tab("images", "Images", "image", "No local EC2 images are loaded."));
    t.push(tab("volumes", "Volumes", "volume", "No EC2 volumes are loaded."));
    assert(tab_views(t@) =~= inventory_tabs());
    t
}

/// The first value of a `Name` tag among `tags`, skipping tags without a value.
pub open spec fn name_tag(tags: Seq<(Option<Seq<char>>, Option<Seq<char>>)>) -> Option<Seq<char>>
    decreases tags.len(),
{
    if tags.len() == 0 {
        None
    } else if tags[0].0 == Some("Name"@) && tags[0].1 is Some {
        tags[0].1
    } else {
        name_tag(tags.drop_first())
    }
}

/// The name an instance is listed under: its `Name` tag, or else its id.
pub fn instance_name(instance_id: &str, tags: &Vec<(Option<String>, Option<String>)>) -> (r: String)
    ensures
        r@ == text_or(name_tag(tag_views(tags@)), instance_id@),
{
    let ghost all = tag_views(tags@);
    let mut i: usize = 0;
    assert(all.subrange(0, all.len() as int) =~= all);
    while i < tags.len()
        invariant
            0 <= i <= tags.len(),
            all == tag_views(tags@),
            name_tag(all.subrange(i as int, all.len() as int)) == name_tag(all),
        decreases tags.len() - i,
    {
        proof {
            reveal_strlit("Name");
            assert(all.subrange(i as int, all.len() as int).drop_first() =~= all.subrange(i + 1, all.len() as int));
        }
        let is_name = match &tags[i].0 {
            Some(k) => text_eq(k.as_str(), "Name"),
            None => false,
        };
        if is_name {
            if let Some(v) = &tags[i].1 {
                return v.clone();
            }
        }
        i = i + 1;
    }
    String::from_str(instance_id)
}

/// The texts of the tags that have both a key and a value; a later tag with
/// the same key wins.
pub open spec fn tag_texts(tags: Seq<(Option<String>, Option<String>)>) -> Map<Seq<char>, Seq<char>> {
    pairs_map(complete_tags(tag_views(tags)))
}

/// The attributes listed for an instance.
pub open spec fn instance_attributes(
    instance_type: Option<Seq<char>>,
    private_ip: Option<Seq<char>>,
    public_ip: Option<Seq<char>>,
    vpc_id: Option<Seq<char>>,
    subnet_id: Option<Seq<char>>,
) -> Map<Seq<char>, Seq<char>> {
    let m = with_attr(Map::empty(), "instance_type"@, instance_type);
    let m = with_attr(m, "private_ip"@, private_ip);
    let m = with_attr(m, "public_ip"@, public_ip);
    let m = with_attr(m, "vpc_id"@, vpc_id);
    with_attr(m, "subnet_id"@, subnet_id)
}

/// The resource listed for an instance: named by its `Name` tag, in the state
/// it reports (`unknown` when it reports none).
pub fn instance_summary(
    instance_id: &str,
    tags: &Vec<(Option<String>, Option<String>)>,
    state: Option<String>,
    launched_at: Option<String>,
    instance_type: Option<String>,
    private_ip: Option<String>,
    public_ip: Option<String>,
    vpc_id: Option<String>,
    subnet_id: Option<String>,
) -> (r: ResourceSummary)
    ensures
        r.wf(),
        shows_tagged(
            r@,
            "instance/"@ + instance_id@,
            text_or(name_tag(tag_views(tags@)), instance_id@),
            "instance"@,
            text_or(state.deep_view(), "unknown"@),
            launched_at.deep_view(),
            tag_texts(tags@),
            instance_attributes(
                instance_type.deep_view(),
                private_ip.deep_view(),
                public_ip.deep_view(),
                vpc_id.deep_view(),
                subnet_id.deep_view(),
            ),
        ),
{
    let ghost views = (
        instance_type.deep_view(),
        private_ip.deep_view(),
        public_ip.deep_view(),
        vpc_id.deep_view(),
        subnet_id.deep_view(),
    );
    let mut attributes = no_attributes();
    put_attr(&mut attributes, "instance_type", instance_type);
    put_attr(&mut attributes, "private_ip", private_ip);
    put_attr(&mut attributes, "public_ip", public_ip);
    put_attr(&mut attributes, "vpc_id", vpc_id);
    put_attr(&mut attributes, "subnet_id", subnet_id);
    assert(texts_of(attributes@) == instance_attributes(views.0, views.1, views.2, views.3, views.4));
    tagged_summary(
        concat2("instance/", instance_id),
        instance_name(instance_id, tags),
        "instance",
        text_or_default(state, "unknown"),
        launched_at,
        tags_to_map(tags),
        attributes,
    )
}

/// The resource listed for a VPC, with its CIDR block (`n/a` when it has none).
pub fn vpc_summary(
    vpc_id: &str,
    tags: &Vec<(Option<String>, Option<String>)>,
    state: Option<String>,
    cidr_block: Option<String>,
) -> (r: ResourceSummary)
    ensures
        r.wf(),
        shows_tagged(
            r@,
            "vpc/"@ + vpc_id@,
            vpc_id@,
            "vpc"@,
            text_or(state.deep_view(), "available"@),
            None,
            tag_texts(tags@),
            map!["cidr_block"@ => text_or(cidr_block.deep_view(), "n/a"@)],
        ),
{
    let mut attributes: TextMap<String> = TextMap::new();
    let cidr = text_or_default(cidr_block, "n/a");
    let ghost c = cidr@;
    attributes.insert(String::from_str("cidr_block"), cidr);
    assert(texts_of(attributes@) =~= map!["cidr_block"@ => c]);
    tagged_summary(
        concat2("vpc/", vpc_id),
        String::from_str(vpc_id),
        "vpc",
        text_or_default(state, "available"),
        None,
        tags_to_map(tags),
        attributes,
    )
}

/// The attributes listed for a subnet.
pub open spec fn subnet_attributes(
    vpc_id: Option<Seq<char>>,
    cidr_block: Option<Seq<char>>,
    availability_zone: Option<Seq<char>>,
    available_ip_count: Option<i64>,
) -> Map<Seq<char>, Seq<char>> {
    let m = with_attr(Map::empty(), "vpc_id"@, vpc_id);
    let m = with_attr(m, "cidr_block"@, cidr_block);
    let m = with_attr(m, "availability_zone"@, availability_zone);
    with_attr(m, "available_ip_count"@, number_text(available_ip_count))
}

/// The resource listed for a subnet.
pub fn subnet_summary(
    subnet_id: &str,
    tags: &Vec<(Option<String>, Option<String>)>,
    state: Option<String>,
    vpc_id: Option<String>,
    cidr_block: Option<String>,
    availability_zone: Option<String>,
    available_ip_count: Option<i64>,
) -> (r: ResourceSummary)
    ensures
        r.wf(),
        shows_tagged(
            r@,
            "subnet/"@ + subnet_id@,
            subnet_id@,
            "subnet"@,
            text_or(state.deep_view(), "available"@),
            None,
            tag_texts(tags@),
            subnet_attributes(
                vpc_id.deep_view(),
                cidr_block.deep_view(),
                availability_zone.deep_view(),
                available_ip_count,
            ),
        ),
{
    let ghost views = (vpc_id.deep_view(), cidr_block.deep_view(), availability_zone.deep_view());
    let mut attributes = no_attributes();
    put_attr(&mut attributes, "vpc_id", vpc_id);
    put_attr(&mut attributes, "cidr_block", cidr_block);
    put_attr(&mut attributes, "availability_zone", availability_zone);
    put_attr(&mut attributes, "available_ip_count", optional_number_text(available_ip_count));
    assert(texts_of(attributes@) == subnet_attributes(views.0, views.1, views.2, available_ip_count));
    tagged_summary(
        concat2("subnet/", subnet_id),
        String::from_str(subnet_id),
        "subnet",
        text_or_default(state, "available"),
        None,
        tags_to_map(tags),
        attributes,
    )
}

/// The attributes listed for a security group.
pub open spec fn security_group_attributes(
    group_name: Option<Seq<char>>,
    description: Option<Seq<char>>,
    vpc_id: Option<Seq<char>>,
    inbound_rules: nat,
) -> Map<Seq<char>, Seq<char>> {
    let m = with_attr(Map::empty(), "group_name"@, group_name);
    let m = with_attr(m, "description"@, description);
    let m = with_attr(m, "vpc_id"@, vpc_id);
    m.insert("inbound_rules"@, digits_of(inbound_rules))
}

/// The resource listed for a security group: named by its group name, or else
/// its id, with the number of its inbound rules.
pub fn security_group_summary(
    group_id: &str,
    tags: &Vec<(Option<String>, Option<String>)>,
    group_name: Option<String>,
    description: Option<String>,
    vpc_id: Option<String>,
    inbound_rules: usize,
) -> (r: ResourceSummary)
    ensures
        r.wf(),
        shows_tagged(
            r@,
            "security-group/"@ + group_id@,
            text_or(group_name.deep_view(), group_id@),
            "security-group"@,
            "available"@,
            None,
            tag_texts(tags@),
            security_group_attributes(
                group_name.deep_view(),
                description.deep_view(),
                vpc_id.deep_view(),
                inbound_rules as nat,
            ),
        ),
{
    let ghost views = (group_name.deep_view(), description.deep_view(), vpc_id.deep_view());
    let name = match &group_name {
        Some(n) => n.clone(),
        None => String::from_str(group_id),
    };
    let mut attributes = no_attributes();
    put_attr(&mut attributes, "group_name", group_name);
    put_attr(&mut attributes, "description", description);
    put_attr(&mut attributes, "vpc_id", vpc_id);
    let count: u64 = inbound_rules as u64;
    let ghost before = attributes@;
    let rules = nat_text(count);
    let ghost rules_text = rules@;
    attributes.insert(String::from_str("inbound_rules"), rules);
    assert(texts_of(attributes@) =~= texts_of(before).insert("inbound_rules"@, rules_text));
    assert(texts_of(attributes@) == security_group_attributes(views.0, views.1, views.2, inbound_rules as nat));
    tagged_summary(
        concat2("security-group/", group_id),
        name,
        "security-group",
        String::from_str("available"),
        None,
        tags_to_map(tags),
        attributes,
    )
}

/// The resource listed for a key pair; key pairs carry no tags.
pub fn key_pair_summary(key_name: &str, key_pair_id: Option<String>, fingerprint: Option<String>) -> (r:
    ResourceSummary)
    ensures
        r.wf(),
        shows(
            r@,
            "key-pair/"@ + key_name@,
            key_name@,
            "key-pair"@,
            "available"@,
            None,
            None,
            with_attr(
                with_attr(Map::empty(), "key_pair_id"@, key_pair_id.deep_view()),
                "fingerprint"@,
                fingerprint.deep_view(),
            ),
        ),
{
    let mut attributes = no_attributes();
    put_attr(&mut attributes, "key_pair_id", key_pair_id);
    put_attr(&mut attributes, "fingerprint", fingerprint);
    summary(
        concat2("key-pair/", key_name),
        String::from_str(key_name),
        "key-pair",
        String::from_str("available"),
        None,
        None,
        attributes,
    )
}

/// The attributes listed for an image.
pub open spec fn image_attributes(
    architecture: Option<Seq<char>>,
    image_type: Option<Seq<char>>,
    root_device_type: Option<Seq<char>>,
) -> Map<Seq<char>, Seq<char>> {
    let m = with_attr(Map::empty(), "architecture"@, architecture);
    let m = with_attr(m, "image_type"@, image_type);
    with_attr(m, "root_device_type"@, root_device_type)
}

/// The resource listed for an image: named by its name, or else its id.
pub fn image_summary(
    image_id: &str,
    tags: &Vec<(Option<String>, Option<String>)>,
    name: Option<String>,
    state: Option<String>,
    creation_date: Option<String>,
    architecture: Option<String>,
    image_type: Option<String>,
    root_device_type: Option<String>,
) -> (r: ResourceSummary)
    ensures
        r.wf(),
        shows_tagged(
            r@,
            "image/"@ + image_id@,
            text_or(name.deep_view(), image_id@),
            "image"@,
            text_or(state.deep_view(), "available"@),
            creation_date.deep_view(),
            tag_texts(tags@),
            image_attributes(architecture.deep_view(), image_type.deep_view(), root_device_type.deep_view()),
        ),
{
    let ghost views = (architecture.deep_view(), image_type.deep_view(), root_device_type.deep_view());
    let mut attributes = no_attributes();
    put_attr(&mut attributes, "architecture", architecture);
    put_attr(&mut attributes, "image_type", image_type);
    put_attr(&mut attributes, "root_device_type", root_device_type);
    assert(texts_of(attributes@) == image_attributes(views.0, views.1, views.2));
    tagged_summary(
        concat2("image/", image_id),
        text_or_default(name, image_id),
        "image",
        text_or_default(state, "available"),
        creation_date,
        tags_to_map(tags),
        attributes,
    )
}

/// The attributes listed for a volume.
pub open spec fn volume_attributes(
    size_gib: Option<i64>,
    volume_type: Option<Seq<char>>,
    availability_zone: Option<Seq<char>>,
) -> Map<Seq<char>, Seq<char>> {
    let m = with_attr(Map::empty(), "size_gib"@, number_text(size_gib));
    let m = with_attr(m, "volume_type"@, volume_type);
    with_attr(m, "availability_zone"@, availability_zone)
}

/// The resource listed for a volume.
pub fn volume_summary(
    volume_id: &str,
    tags: &Vec<(Option<String>, Option<String>)>,
    state: Option<String>,
    created_at: Option<String>,
    size_gib: Option<i64>,
    volume_type: Option<String>,
    availability_zone: Option<String>,
) -> (r: ResourceSummary)
    ensures
        r.wf(),
        shows_tagged(
            r@,
            "volume/"@ + volume_id@,
            volume_id@,
            "volume"@,
            text_or(state.deep_view(), "available"@),
            created_at.deep_view(),
            tag_texts(tags@),
            volume_attributes(size_gib, volume_type.deep_view(), availability_zone.deep_view()),
        ),
{
    let ghost views = (volume_type.deep_view(), availability_zone.deep_view());
    let mut attributes = no_attributes();
    put_attr(&mut attributes, "size_gib", optional_number_text(size_gib));
    put_attr(&mut attributes, "volume_type", volume_type);
    put_attr(&mut attributes, "availability_zone", availability_zone);
    assert(texts_of(attributes@) == volume_attributes(size_gib, views.0, views.1));
    tagged_summary(
        concat2("volume/", volume_id),
        String::from_str(volume_id),
        "volume",
        text_or_default(state, "available"),
        created_at,
        tags_to_map(tags),
        attributes,
    )
}

/// A call to EC2, with its validated inputs.
#[derive(Debug, Clone)]
pub enum Call {
    StartInstance { instance_id: String },
    StopInstance { instance_id: String },
    TerminateInstance { instance_id: String },
}

impl View for Call {
    type V = CallView;

    open spec fn view(&self) -> CallView {
        match self {
            Call::StartInstance { instance_id } => call_of(
                "start_instance"@,
                seq![instance_id@],
                seq![],
            ),
            Call::StopInstance { instance_id } => call_of(
                "stop_instance"@,
                seq![instance_id@],
                seq![],
            ),
            Call::TerminateInstance { instance_id } => call_of(
                "terminate_instance"@,
                seq![instance_id@],
                seq![],
            ),
        }
    }
}

/// What an action request on EC2 asks for.
pub open spec fn action_plan(request: ServiceActionRequest) -> Result<PlannedView, ErrorView> {
    let a = request.action@;
    if a == "start_instance"@ {
        then_text(
            selected_resource(request, "instance/"@),
            |instance_id: Seq<char>|
                planned_call(a, seq![instance_id], seq![]),
        )
    } else if a == "stop_instance"@ {
        then_text(
            typed_confirmation(request),
            |instance_id: Seq<char>|
                planned_call(a, seq![instance_id], seq![]),
        )
    } else if a == "terminate_instance"@ {
        then_text(
            typed_confirmation(request),
            |instance_id: Seq<char>|
                planned_call(a, seq![instance_id], seq![]),
        )
    } else {
        Err(unsupported_action_error(request))
    }
}

/// Validates an action request on EC2 and decides what to do.
pub fn plan_action(request: &ServiceActionRequest) -> (r: Result<Planned<Call>, ServiceManagementError>)
    requires
        request.payload.wf(),
    ensures
        planned_outcome(r) == action_plan(*request),
        r matches Ok(Planned::Call(Call::StartInstance { instance_id })) ==> {
            &&& request.action@ == "start_instance"@
            &&& selected_resource(*request, "instance/"@) == Ok::<Seq<char>, ErrorView>(instance_id@)
        },
        r matches Ok(Planned::Call(Call::StopInstance { instance_id })) ==> {
            &&& request.action@ == "stop_instance"@
            &&& typed_confirmation(*request) == Ok::<Seq<char>, ErrorView>(instance_id@)
        },
        r matches Ok(Planned::Call(Call::TerminateInstance { instance_id })) ==> {
            &&& request.action@ == "terminate_instance"@
            &&& typed_confirmation(*request) == Ok::<Seq<char>, ErrorView>(instance_id@)
        },
{
    let action = request.action.as_str();
    if text_eq(action, "start_instance") {
        let instance_id = require_resource_id(request, "instance/")?;
        Ok(Planned::Call(Call::StartInstance { instance_id }))
    } else if text_eq(action, "stop_instance") {
        let instance_id = require_typed_confirmation(request)?;
        Ok(Planned::Call(Call::StopInstance { instance_id }))
    } else if text_eq(action, "terminate_instance") {
        let instance_id = require_typed_confirmation(request)?;
        Ok(Planned::Call(Call::TerminateInstance { instance_id }))
    } else {
        Err(unsupported_action(request))
    }
}

/// The result of `call` once it succeeded with `reply`.
pub open spec fn result_of(call: Call, _reply: CallReply) -> ActionResultView {
    match call {
        Call::StartInstance { instance_id } => result_view(
            true,
            "Started EC2 instance `"@ + instance_id@ + "`."@,
            Some("instance/"@ + instance_id@),
        ),
        Call::StopInstance { instance_id } => result_view(
            true,
            "Stopped EC2 instance `"@ + instance_id@ + "`."@,
            Some("instance/"@ + instance_id@),
        ),
        Call::TerminateInstance { instance_id } => result_view(
            true,
            "Terminated EC2 instance `"@ + instance_id@ + "`."@,
            Some("instance/"@ + instance_id@),
        ),
    }
}

/// The result reported once `call` succeeded with `reply`.
pub fn completed(call: &Call, _reply: &CallReply) -> (r: ActionResult)
    ensures
        r@ == result_of(*call, *_reply),
{
    match call {
        Call::StartInstance { instance_id } => {
            let mut message = String::from_str("Started EC2 instance `");
            message.append(instance_id.as_str());
            message.append("`.");
            let mut id = String::from_str("instance/");
            id.append(instance_id.as_str());
            action_result(true, message, Some(id))
        },
        Call::StopInstance { instance_id } => {
            let mut message = String::from_str("Stopped EC2 instance `");
            message.append(instance_id.as_str());
            message.append("`.");
            let mut id = String::from_str("instance/");
            id.append(instance_id.as_str());
            action_result(true, message, Some(id))
        },
        Call::TerminateInstance { instance_id } => {
            let mut message = String::from_str("Terminated EC2 instance `");
            message.append(instance_id.as_str());
            message.append("`.");
            let mut id = String::from_str("instance/");
            id.append(instance_id.as_str());
            action_result(true, message, Some(id))
        },
    }
}

/// Every call planned for an action request performs the requested action.
pub proof fn lemma_plan_performs_requested_action(request: ServiceActionRequest)
    ensures
        action_plan(request) matches Ok(PlannedView::Call(c)) ==> c.name == request.action@,
{
}

/// A destructive action is only planned once the typed confirmation matches.
pub proof fn lemma_destructive_actions_are_confirmed(request: ServiceActionRequest)
    ensures
        action_plan(request) is Ok && destructive(request.action@) ==> typed_confirmation(request) is Ok,
{
    reveal_strlit("start_instance");
    lemma_not_destructive("start_instance"@);
}

/// The operations the EC2 page lists as unavailable.
pub open spec fn unsupported_operations() -> Seq<Seq<char>> {
    seq!["create_instance"@, "modify_instance"@, "delete_security_group"@]
}

/// The name under which the service's inventory page is shown.
pub open spec fn label() -> Seq<char> {
    "EC2"@
}

/// How far this adapter supports the service: it manages its resources.
pub open spec fn support_level() -> ServiceSupportLevel {
    ServiceSupportLevel::Managed
}

/// The EC2 inventory page: the listed `resources` under the EC2 tabs, refreshed
/// at `refreshed_at`.
pub fn inventory(
    resources: Vec<ResourceSummary>,
    refreshed_at: String,
) -> (inv: ServiceInventory)
    ensures
        inv@ == (InventoryView {
            service_key: "ec2"@,
            service_label: label(),
            support_level: support_level(),
            refreshed_at: refreshed_at@,
            tabs: inventory_tabs(),
            resources: summary_views(resources@),
            unsupported_operations: unsupported_operations(),
        }),
{
    let mut ops: Vec<String> = Vec::new();
    ops.push(String::from_str("create_instance"));
    ops.push(String::from_str("modify_instance"));
    ops.push(String::from_str("delete_security_group"));
    proof {
        assert(ops.deep_view() =~= unsupported_operations());
    }
    build_inventory(
        "ec2",
        "EC2",
        ServiceSupportLevel::Managed,
        refreshed_at,
        tabs(),
        resources,
        ops,
    )
}

} // verus!
