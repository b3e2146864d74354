//! The service registry: descriptors for the fixed set of services the
//! console knows how to health-check, and the name filter applied to them.

use vstd::prelude::*;
use crate::text::contains_ci;

verus! {

/// A named service eligible for health checking.
pub struct ServiceDescriptor {
    pub name: String,
    pub icon: String,
    pub endpoint: String,
    pub description: String,
}

/// Mathematical image of a descriptor: each field as a character sequence.
pub ghost struct ServiceView {
    pub name: Seq<char>,
    pub icon: Seq<char>,
    pub endpoint: Seq<char>,
    pub description: Seq<char>,
}

impl View for ServiceDescriptor {
    type V = ServiceView;

    open spec fn view(&self) -> ServiceView {
        ServiceView {
            name: self.name@,
            icon: self.icon@,
            endpoint: self.endpoint@,
            description: self.description@,
        }
    }
}

impl Clone for ServiceDescriptor {
    fn clone(&self) -> (r: Self)
        ensures
            r@ == self@,
    {
        ServiceDescriptor {
            name: self.name.clone(),
            icon: self.icon.clone(),
            endpoint: self.endpoint.clone(),
            description: self.description.clone(),
        }
    }
}

impl ServiceDescriptor {
    /// Builds a descriptor from its four fields.
    pub fn new(name: &str, icon: &str, endpoint: &str, description: &str) -> (r: Self)
        ensures
            r@ == (ServiceView { name: name@, icon: icon@, endpoint: endpoint@, description: description@ }),
    {
        ServiceDescriptor {
            name: name.to_owned(),
            icon: icon.to_owned(),
            endpoint: endpoint.to_owned(),
            description: description.to_owned(),
        }
    }
}

/// A service passes the filter when there is no filter, or when its name
/// contains the filter as a case-insensitive substring.
pub open spec fn passes_filter(name: Seq<char>, filter: Option<Seq<char>>) -> bool {
    match filter {
        Option::None => true,
        Option::Some(f) => contains_ci(name, f),
    }
}

/// The optional filter string, viewed as an optional character sequence.
pub open spec fn filter_view(filter: Option<String>) -> Option<Seq<char>> {
    match filter {
        Option::None => Option::None,
        Option::Some(f) => Option::Some(f@),
    }
}

/// The registry as the fixed services stand, in their fixed order.
pub open spec fn default_registry_view() -> Seq<ServiceView> {
    seq![
        ServiceView {
            name: "CERBERUS"@,
            icon: "🛡️"@,
            endpoint: "http://localhost:8080/health"@,
            description: "API Gateway (L2)"@,
        },
        ServiceView {
            name: "KRONOS"@,
            icon: "⏰"@,
            endpoint: "http://localhost:3000/health"@,
            description: "Task Scheduler"@,
        },
        ServiceView {
            name: "HERMES"@,
            icon: "📨"@,
            endpoint: "http://localhost:50051"@,
            description: "Event Bus (gRPC)"@,
        },
        ServiceView {
            name: "VORTEX"@,
            icon: "🧠"@,
            endpoint: "http://localhost:8000/health"@,
            description: "AI Engine"@,
        },
        ServiceView {
            name: "OPTICUS"@,
            icon: "👁️"@,
            endpoint: "http://localhost:8100/health"@,
            description: "Vision Pipeline"@,
        },
    ]
}

/// Builds the five fixed services, in registry order.
pub fn default_registry() -> (r: Vec<ServiceDescriptor>)
    ensures
        r@.map_values(|s: ServiceDescriptor| s@) == default_registry_view(),
{
    let mut r: Vec<ServiceDescriptor> = Vec::new();
    r.push(ServiceDescriptor::new("CERBERUS", "🛡️", "http://localhost:8080/health", "API Gateway (L2)"));
    r.push(ServiceDescriptor::new("KRONOS", "⏰", "http://localhost:3000/health", "Task Scheduler"));
    r.push(ServiceDescriptor::new("HERMES", "📨", "http://localhost:50051", "Event Bus (gRPC)"));
    r.push(ServiceDescriptor::new("VORTEX", "🧠", "http://localhost:8000/health", "AI Engine"));
    r.push(ServiceDescriptor::new("OPTICUS", "👁️", "http://localhost:8100/health", "Vision Pipeline"));
    assert(r@.map_values(|s: ServiceDescriptor| s@) =~= default_registry_view());
    r
}

} // verus!
