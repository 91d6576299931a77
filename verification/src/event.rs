//! Administrative events and what they lead to.
//!
//! Only one kind of event matters: a circuit is ready. Where the circuit
//! has a service that the local node may run, the first such service of
//! its roster is provisioned; every other event is let pass.

use crate::key::Keys;
use crate::setup::{grid_specs, setup_grid, started, GridSetup, Request, RequestView};
use crate::text::{contains_text, texts};
use vstd::prelude::*;
use vstd::string::*;

verus! {

/// A service of a circuit.
#[derive(Debug, Clone, PartialEq, Eq)]
pub struct SplinterService {
    /// Name of the service.
    pub service_id: String,
    /// Names of the nodes that may run the service.
    pub allowed_nodes: Vec<String>,
}

/// A service as a mathematical value.
pub struct SplinterServiceView {
    pub service_id: Seq<char>,
    pub allowed_nodes: Seq<Seq<char>>,
}

impl View for SplinterService {
    type V = SplinterServiceView;

    open spec fn view(&self) -> SplinterServiceView {
        SplinterServiceView {
            service_id: self.service_id@,
            allowed_nodes: texts(self.allowed_nodes@),
        }
    }
}

/// The services of a list, each as a mathematical value.
pub open spec fn service_views(list: Seq<SplinterService>) -> Seq<SplinterServiceView> {
    Seq::new(list.len(), |i: int| list[i]@)
}

/// What the administrative service reports.
#[derive(Debug, Clone, PartialEq, Eq)]
pub enum AdminServiceEvent {
    /// A circuit is ready for use; `roster` lists its services.
    CircuitReady { circuit_id: String, roster: Vec<SplinterService> },
    /// Anything else.
    Other,
}

/// An administrative event, with the time at which it was reported.
#[derive(Debug, Clone, PartialEq, Eq)]
pub struct AdminEvent {
    pub timestamp: u64,
    pub admin_event: AdminServiceEvent,
}

/// What an administrative event leads to.
#[derive(Debug, PartialEq, Eq)]
pub enum Provisioning {
    /// Nothing: no transaction is built and nothing is submitted.
    NotNeeded,
    /// The provisioning of the service `service_id` of the circuit
    /// `circuit_id`: `run` has started and `request` is its first request.
    Started { circuit_id: String, service_id: String, run: GridSetup, request: Request },
}

/// Whether the node `node_id` may run `service`.
pub open spec fn serves(service: SplinterServiceView, node_id: Seq<char>) -> bool {
    service.allowed_nodes.contains(node_id)
}

/// Name of the first service of `roster` that the node `node_id` may run.
pub open spec fn matching_service(roster: Seq<SplinterServiceView>, node_id: Seq<char>) -> Option<
    Seq<char>,
>
    decreases roster.len(),
{
    if roster.len() == 0 {
        None
    } else if serves(roster[0], node_id) {
        Some(roster[0].service_id)
    } else {
        matching_service(roster.drop_first(), node_id)
    }
}

/// A node has a matching service in a roster exactly where it may run
/// one of the roster's services; and the matching service is the first of
/// those.
pub proof fn lemma_matching_service(roster: Seq<SplinterServiceView>, node_id: Seq<char>)
    ensures
        matching_service(roster, node_id) is None <==> forall|i: int|
            0 <= i < roster.len() ==> !serves(#[trigger] roster[i], node_id),
        matching_service(roster, node_id) matches Some(service_id) ==> exists|i: int|
            0 <= i < roster.len() && serves(#[trigger] roster[i], node_id) && roster[i].service_id
                == service_id && forall|j: int| 0 <= j < i ==> !serves(#[trigger] roster[j], node_id),
    decreases roster.len(),
{
    if roster.len() > 0 {
        let rest = roster.drop_first();
        lemma_matching_service(rest, node_id);
        assert forall|i: int| 0 <= i < rest.len() implies rest[i] == roster[i + 1] by {}
        if serves(roster[0], node_id) {
            assert(serves(roster[0], node_id) && roster[0].service_id == roster[0].service_id);
        } else {
            if matching_service(roster, node_id) is None {
                assert forall|i: int| 0 <= i < roster.len() implies !serves(
                    #[trigger] roster[i],
                    node_id,
                ) by {
                    if i > 0 {
                        assert(rest[i - 1] == roster[i]);
                    }
                }
            } else {
                let service_id = matching_service(roster, node_id)->0;
                let i = choose|i: int|
                    0 <= i < rest.len() && serves(#[trigger] rest[i], node_id) && rest[i].service_id
                        == service_id && forall|j: int|
                        0 <= j < i ==> !serves(#[trigger] rest[j], node_id);
                assert(serves(roster[i + 1], node_id));
                assert forall|j: int| 0 <= j < i + 1 implies !serves(
                    #[trigger] roster[j],
                    node_id,
                ) by {
                    if j > 0 {
                        assert(rest[j - 1] == roster[j]);
                    }
                }
                assert(roster[i + 1].service_id == service_id);
                if forall|k: int| 0 <= k < roster.len() ==> !serves(#[trigger] roster[k], node_id) {
                    assert(!serves(roster[i + 1], node_id));
                }
            }
        }
    }
}

/// Name of the first service of `roster` that the node `node_id` may run.
pub fn find_service(roster: &Vec<SplinterService>, node_id: &str) -> (found: Option<String>)
    ensures
        match found {
            Some(service_id) => matching_service(service_views(roster@), node_id@) == Some(
                service_id@,
            ),
            None => matching_service(service_views(roster@), node_id@) is None,
        },
{
    let ghost all = service_views(roster@);
    let mut i: usize = 0;
    assert(all.skip(0) =~= all);
    while i < roster.len()
        invariant
            i <= roster@.len(),
            all == service_views(roster@),
            matching_service(all, node_id@) == matching_service(all.skip(i as int), node_id@),
        decreases roster@.len() - i,
    {
        let ghost rest = all.skip(i as int);
        assert(rest[0] == roster@[i as int]@);
        assert(rest.drop_first() =~= all.skip(i as int + 1));
        let allowed = contains_text(&roster[i].allowed_nodes, node_id);
        proof {
            let nodes = roster@[i as int].allowed_nodes@;
            if allowed {
                let k = choose|k: int| 0 <= k < nodes.len() && nodes[k]@ == node_id@;
                assert(texts(nodes)[k] == node_id@);
            }
            if texts(nodes).contains(node_id@) {
                let k = choose|k: int| 0 <= k < texts(nodes).len() && texts(nodes)[k] == node_id@;
                assert(nodes[k]@ == node_id@);
            }
            assert(allowed == serves(rest[0], node_id@));
        }
        if allowed {
            return Some(roster[i].service_id.clone());
        }
        i += 1;
    }
    assert(all.skip(i as int).len() == 0);
    None
}

/// The circuit and the service that `event` asks to provision for the node
/// `node_id`, if any: the first service of a ready circuit that the node
/// may run.
pub open spec fn provisioned_by(event: AdminEvent, node_id: Seq<char>) -> Option<
    (Seq<char>, Seq<char>),
> {
    match event.admin_event {
        AdminServiceEvent::CircuitReady { circuit_id, roster } => match matching_service(
            service_views(roster@),
            node_id,
        ) {
            Some(service_id) => Some((circuit_id@, service_id)),
            None => None,
        },
        AdminServiceEvent::Other => None,
    }
}

/// Decides what `event` leads to on the node `node_id`. For a circuit that
/// is ready and has a service for the node, it starts the provisioning of
/// that service through the ledger at `splinterd_url`, signed with
/// `scabbard_admin_keys`. For any other event it does nothing.
pub fn process_admin_event(
    event: &AdminEvent,
    node_id: &str,
    splinterd_url: &str,
    scabbard_admin_keys: &Keys,
) -> (outcome: Provisioning)
    ensures
        match provisioned_by(*event, node_id@) {
            None => outcome is NotNeeded,
            Some((circuit, service)) => outcome matches Provisioning::Started {
                circuit_id,
                service_id,
                run,
                request,
            } && circuit_id@ == circuit && service_id@ == service && run@ == started(
                grid_specs(),
                splinterd_url@,
                service,
            ) && request@ == (RequestView::CreateSigner {
                private_key: scabbard_admin_keys.private_key@,
            }),
        },
{
    match &event.admin_event {
        AdminServiceEvent::CircuitReady { circuit_id, roster } => {
            match find_service(roster, node_id) {
                Some(service_id) => {
                    let (run, request) = setup_grid(
                        scabbard_admin_keys,
                        splinterd_url,
                        service_id.as_str(),
                    );
                    Provisioning::Started { circuit_id: circuit_id.clone(), service_id, run, request }
                },
                None => Provisioning::NotNeeded,
            }
        },
        AdminServiceEvent::Other => Provisioning::NotNeeded,
    }
}

/// An event of a circuit in whose roster no service may run on the node
/// leads to nothing.
pub proof fn lemma_no_service_no_provisioning(event: AdminEvent, node_id: Seq<char>)
    requires
        event.admin_event matches AdminServiceEvent::CircuitReady { roster, .. } ==> forall|i: int|
            0 <= i < roster@.len() ==> !serves(#[trigger] service_views(roster@)[i], node_id),
    ensures
        provisioned_by(event, node_id) is None,
{
    match event.admin_event {
        AdminServiceEvent::CircuitReady { circuit_id, roster } => {
            lemma_matching_service(service_views(roster@), node_id);
        },
        AdminServiceEvent::Other => {},
    }
}

} // verus!
