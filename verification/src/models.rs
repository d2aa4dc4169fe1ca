//! What the desktop shell shows on its dashboard.
use vstd::prelude::*;

use crate::service_management::models::ServiceSupportLevel;

verus! {

/// The group a service belongs to on the dashboard.
#[derive(Debug, Clone, Copy, PartialEq, Eq, Structural)]
pub enum ServiceCategory {
    Core,
    Compute,
    Data,
    Messaging,
    Networking,
    Observability,
    Security,
}

/// The views of a list of texts.
pub open spec fn texts(s: Seq<&str>) -> Seq<Seq<char>> {
    s.map_values(|t: &str| t@)
}

/// The content of a catalog entry.
pub struct DescriptorView {
    pub key: Seq<char>,
    pub label: Seq<char>,
    pub category: ServiceCategory,
    pub description: Seq<char>,
    pub domain_epic: Seq<char>,
    pub support_level: ServiceSupportLevel,
    pub primary_resource_kinds: Seq<Seq<char>>,
    pub safe_operations: Seq<Seq<char>>,
}

/// A service as the dashboard lists it.
#[derive(Debug, Clone)]
pub struct ServiceDescriptor {
    pub key: String,
    pub label: String,
    pub category: ServiceCategory,
    pub description: String,
    pub domain_epic: String,
    pub support_level: ServiceSupportLevel,
    pub primary_resource_kinds: Vec<String>,
    pub safe_operations: Vec<String>,
}

impl View for ServiceDescriptor {
    type V = DescriptorView;

    open spec fn view(&self) -> DescriptorView {
        DescriptorView {
            key: self.key@,
            label: self.label@,
            category: self.category,
            description: self.description@,
            domain_epic: self.domain_epic@,
            support_level: self.support_level,
            primary_resource_kinds: self.primary_resource_kinds.deep_view(),
            safe_operations: self.safe_operations.deep_view(),
        }
    }
}

/// The views of a list of services.
pub open spec fn descriptor_views(v: Seq<ServiceDescriptor>) -> Seq<DescriptorView> {
    v.map_values(|d: ServiceDescriptor| d@)
}

/// What the dashboard shows about the connection and the catalog. The secret
/// access key is not part of it.
#[derive(Debug, Clone)]
pub struct DashboardSnapshot {
    pub endpoint_url: String,
    pub region: String,
    pub access_key_id: String,
    pub credentials_status: String,
    pub last_refreshed_at: String,
    pub services: Vec<ServiceDescriptor>,
}

/// The content of a [`DashboardSnapshot`].
pub struct SnapshotView {
    pub endpoint_url: Seq<char>,
    pub region: Seq<char>,
    pub access_key_id: Seq<char>,
    pub credentials_status: Seq<char>,
    pub last_refreshed_at: Seq<char>,
    pub services: Seq<DescriptorView>,
}

impl View for DashboardSnapshot {
    type V = SnapshotView;

    open spec fn view(&self) -> SnapshotView {
        SnapshotView {
            endpoint_url: self.endpoint_url@,
            region: self.region@,
            access_key_id: self.access_key_id@,
            credentials_status: self.credentials_status@,
            last_refreshed_at: self.last_refreshed_at@,
            services: descriptor_views(self.services@),
        }
    }
}

} // verus!
