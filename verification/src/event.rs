//! The events that the client handlers emit.

use vstd::prelude::*;

use crate::any::ClientType;
use crate::height::Height;
use crate::identifier::ClientId;

verus! {

/// An event of the client handlers.
#[derive(Debug)]
pub enum IbcEvent {
    /// Marks what follows as an event of the client module.
    ClientMessage,
    /// A client was created.
    CreateClient { client_id: ClientId, client_type: ClientType, consensus_height: Height },
    /// A client was updated with a header.
    UpdateClient {
        client_id: ClientId,
        client_type: ClientType,
        consensus_height: Height,
        consensus_heights: Vec<Height>,
        header: Vec<u8>,
    },
    /// A client was frozen on evidence of misbehaviour.
    ClientMisbehaviour { client_id: ClientId, client_type: ClientType },
    /// A client was upgraded.
    UpgradeClient { client_id: ClientId, client_type: ClientType, consensus_height: Height },
}

/// The mathematical value of an event.
pub enum IbcEventView {
    ClientMessage,
    CreateClient { client_id: Seq<char>, client_type: ClientType, consensus_height: Height },
    UpdateClient {
        client_id: Seq<char>,
        client_type: ClientType,
        consensus_height: Height,
        consensus_heights: Seq<Height>,
        header: Seq<u8>,
    },
    ClientMisbehaviour { client_id: Seq<char>, client_type: ClientType },
    UpgradeClient { client_id: Seq<char>, client_type: ClientType, consensus_height: Height },
}

impl View for IbcEvent {
    type V = IbcEventView;

    open spec fn view(&self) -> IbcEventView {
        match self {
            IbcEvent::ClientMessage => IbcEventView::ClientMessage,
            IbcEvent::CreateClient { client_id, client_type, consensus_height } => {
                IbcEventView::CreateClient {
                    client_id: client_id@,
                    client_type: *client_type,
                    consensus_height: *consensus_height,
                }
            },
            IbcEvent::UpdateClient {
                client_id,
                client_type,
                consensus_height,
                consensus_heights,
                header,
            } => IbcEventView::UpdateClient {
                client_id: client_id@,
                client_type: *client_type,
                consensus_height: *consensus_height,
                consensus_heights: consensus_heights@,
                header: header@,
            },
            IbcEvent::ClientMisbehaviour { client_id, client_type } => {
                IbcEventView::ClientMisbehaviour {
                    client_id: client_id@,
                    client_type: *client_type,
                }
            },
            IbcEvent::UpgradeClient { client_id, client_type, consensus_height } => {
                IbcEventView::UpgradeClient {
                    client_id: client_id@,
                    client_type: *client_type,
                    consensus_height: *consensus_height,
                }
            },
        }
    }
}

impl IbcEventView {
    pub open spec fn is_misbehaviour(self) -> bool {
        self is ClientMisbehaviour
    }

    pub open spec fn is_update(self) -> bool {
        self is UpdateClient
    }
}

impl IbcEvent {
    /// The wire name of the event's kind.
    pub fn event_type(&self) -> (r: &'static str)
        ensures
            r@ == (match self@ {
                IbcEventView::ClientMessage => "message"@,
                IbcEventView::CreateClient { .. } => "create_client"@,
                IbcEventView::UpdateClient { .. } => "update_client"@,
                IbcEventView::ClientMisbehaviour { .. } => "client_misbehaviour"@,
                IbcEventView::UpgradeClient { .. } => "upgrade_client"@,
            }),
    {
        match self {
            IbcEvent::ClientMessage => "message",
            IbcEvent::CreateClient { .. } => "create_client",
            IbcEvent::UpdateClient { .. } => "update_client",
            IbcEvent::ClientMisbehaviour { .. } => "client_misbehaviour",
            IbcEvent::UpgradeClient { .. } => "upgrade_client",
        }
    }
}

} // verus!
