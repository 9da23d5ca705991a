//! The state shared by the request handlers.
use crate::model::TicketService;
use vstd::prelude::*;

verus! {

/// Everything the handlers need: the ticket store.
pub struct AppState {
    pub ticket_service: TicketService,
}

} // verus!
