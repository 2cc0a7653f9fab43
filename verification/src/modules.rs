//! The learning modules of the tool, in menu order.
use vstd::prelude::*;

verus! {

/// A learning module available in the SWE Learn TUI.
pub struct Module {
    pub name: &'static str,
    pub description: &'static str,
}

/// The number of learning modules.
pub open spec fn module_count() -> nat {
    6
}

/// The name of the module at `i` in menu order.
pub open spec fn module_name(i: int) -> Seq<char> {
    if i == 0 {
        "Cloud Architecture"@
    } else if i == 1 {
        "System Design Questions"@
    } else if i == 2 {
        "Databases"@
    } else if i == 3 {
        "Networking & Protocols"@
    } else if i == 4 {
        "Data Structures & Algorithms"@
    } else {
        "DevOps & CI/CD"@
    }
}

/// The description of the module at `i` in menu order.
pub open spec fn module_description(i: int) -> Seq<char> {
    if i == 0 {
        "Core cloud patterns and services used in system design"@
    } else if i == 1 {
        "Common interview questions with architecture diagrams"@
    } else if i == 2 {
        "SQL, NoSQL, indexing, replication, and consistency models"@
    } else if i == 3 {
        "HTTP, TCP/IP, DNS, CDNs, and load balancing"@
    } else if i == 4 {
        "Complexity reference and key interview patterns"@
    } else {
        "Containers, Kubernetes, observability, and SRE practices"@
    }
}

/// Returns the full, ordered list of learning modules.
pub fn all_modules() -> (modules: &'static [Module])
    ensures
        modules@.len() == module_count(),
        forall|i: int|
            0 <= i < module_count() ==> (#[trigger] modules@[i]).name@ == module_name(i)
                && modules@[i].description@ == module_description(i),
{
    &[
        Module {
            name: "Cloud Architecture",
            description: "Core cloud patterns and services used in system design",
        },
        Module {
            name: "System Design Questions",
            description: "Common interview questions with architecture diagrams",
        },
        Module {
            name: "Databases",
            description: "SQL, NoSQL, indexing, replication, and consistency models",
        },
        Module {
            name: "Networking & Protocols",
            description: "HTTP, TCP/IP, DNS, CDNs, and load balancing",
        },
        Module {
            name: "Data Structures & Algorithms",
            description: "Complexity reference and key interview patterns",
        },
        Module {
            name: "DevOps & CI/CD",
            description: "Containers, Kubernetes, observability, and SRE practices",
        },
    ]
}

} // verus!
