//! The services listed on the dashboard.
use vstd::prelude::*;

use crate::models::{descriptor_views, ServiceDescriptor};
use crate::service_management::registry::registry;

verus! {

/// Every service of the catalog, in display order.
pub fn services() -> (v: Vec<ServiceDescriptor>)
    ensures
        descriptor_views(v@) == registry(),
{
    crate::service_management::registry::services()
}

} // verus!
