use tickets::auth::extractor::AuthContext;
use tickets::error::Error;
use tickets::model::{Ticket, TicketRequest, TicketService};
use tickets::state::AppState;

fn request(title: &str) -> TicketRequest {
    TicketRequest { title: title.to_string() }
}

#[test]
fn create_ticket() {
    let mut service = TicketService::new().unwrap();
    let ticket = service.create_ticket(AuthContext::new(1), request("t")).unwrap();
    assert_eq!(ticket.id, 0);
    assert_eq!(ticket.title, "t");
    assert_eq!(ticket.user_id, 1);
}

#[test]
fn list_tickets() {
    let mut app_state = AppState { ticket_service: TicketService::new().unwrap() };
    app_state.ticket_service.create_ticket(AuthContext::new(1), request("t")).unwrap();
    let tickets = app_state.ticket_service.list_tickets(AuthContext::new(1)).unwrap();
    assert_eq!(tickets, vec![Ticket { id: 0, user_id: 1, title: "t".to_string() }]);
}

#[test]
fn delete_ticket() {
    let mut app_state = AppState { ticket_service: TicketService::new().unwrap() };
    app_state.ticket_service.create_ticket(AuthContext::new(1), request("t")).unwrap();
    let ticket = app_state.ticket_service.delete_ticket(AuthContext::new(1), 0).unwrap();
    assert_eq!(ticket, Ticket { id: 0, user_id: 1, title: "t".to_string() });
}

#[test]
fn new_service_is_empty() {
    let service = TicketService::new().unwrap();
    assert!(service.list_tickets(AuthContext::new(1)).unwrap().is_empty());
}

#[test]
fn ids_follow_creation_order() {
    let mut service = TicketService::new().unwrap();
    let a = service.create_ticket(AuthContext::new(1), request("a")).unwrap();
    let b = service.create_ticket(AuthContext::new(2), request("b")).unwrap();
    let c = service.create_ticket(AuthContext::new(1), request("c")).unwrap();
    assert_eq!((a.id, b.id, c.id), (0, 1, 2));
}

#[test]
fn list_shows_only_own_tickets_in_id_order() {
    let mut service = TicketService::new().unwrap();
    service.create_ticket(AuthContext::new(1), request("a")).unwrap();
    service.create_ticket(AuthContext::new(2), request("b")).unwrap();
    service.create_ticket(AuthContext::new(1), request("c")).unwrap();
    let mine = service.list_tickets(AuthContext::new(1)).unwrap();
    assert_eq!(
        mine,
        vec![
            Ticket { id: 0, user_id: 1, title: "a".to_string() },
            Ticket { id: 2, user_id: 1, title: "c".to_string() },
        ]
    );
    let theirs = service.list_tickets(AuthContext::new(2)).unwrap();
    assert_eq!(theirs, vec![Ticket { id: 1, user_id: 2, title: "b".to_string() }]);
    assert!(service.list_tickets(AuthContext::new(3)).unwrap().is_empty());
}

#[test]
fn delete_by_other_user_is_not_found_and_keeps_ticket() {
    let mut service = TicketService::new().unwrap();
    service.create_ticket(AuthContext::new(1), request("t")).unwrap();
    let r = service.delete_ticket(AuthContext::new(2), 0);
    assert!(matches!(r, Err(Error::TicketNotFound { id: 0 })));
    assert_eq!(service.list_tickets(AuthContext::new(1)).unwrap().len(), 1);
}

#[test]
fn delete_twice_is_not_found() {
    let mut service = TicketService::new().unwrap();
    service.create_ticket(AuthContext::new(1), request("t")).unwrap();
    service.delete_ticket(AuthContext::new(1), 0).unwrap();
    assert!(matches!(service.delete_ticket(AuthContext::new(1), 0), Err(Error::TicketNotFound { id: 0 })));
    assert!(service.list_tickets(AuthContext::new(1)).unwrap().is_empty());
}

#[test]
fn delete_missing_id_is_not_found() {
    let mut service = TicketService::new().unwrap();
    assert!(matches!(service.delete_ticket(AuthContext::new(1), 7), Err(Error::TicketNotFound { id: 7 })));
    assert!(matches!(
        service.delete_ticket(AuthContext::new(1), u64::MAX),
        Err(Error::TicketNotFound { id: u64::MAX })
    ));
}

#[test]
fn ids_are_not_reused_after_delete() {
    let mut service = TicketService::new().unwrap();
    service.create_ticket(AuthContext::new(1), request("a")).unwrap();
    service.delete_ticket(AuthContext::new(1), 0).unwrap();
    let b = service.create_ticket(AuthContext::new(1), request("b")).unwrap();
    assert_eq!(b.id, 1);
    assert_eq!(service.list_tickets(AuthContext::new(1)).unwrap(), vec![b]);
}

#[test]
fn delete_keeps_other_tickets() {
    let mut service = TicketService::new().unwrap();
    service.create_ticket(AuthContext::new(1), request("a")).unwrap();
    service.create_ticket(AuthContext::new(1), request("b")).unwrap();
    service.create_ticket(AuthContext::new(2), request("c")).unwrap();
    service.delete_ticket(AuthContext::new(1), 0).unwrap();
    assert_eq!(
        service.list_tickets(AuthContext::new(1)).unwrap(),
        vec![Ticket { id: 1, user_id: 1, title: "b".to_string() }]
    );
    assert_eq!(service.list_tickets(AuthContext::new(2)).unwrap().len(), 1);
}

#[test]
fn ticket_clone_is_equal() {
    let t = Ticket { id: 3, user_id: 4, title: "x".to_string() };
    assert_eq!(t.clone(), t);
}
