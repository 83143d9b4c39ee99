use ticket_management::paging::{list_limit, DEFAULT_LIMIT, MAX_LIMIT};
use ticket_management::tickets::list_reply;
use ticket_management::{Description, Status, Ticket, TicketId, TicketPage, Timestamp, Title};

fn ticket(n: u128) -> Ticket {
    Ticket {
        id: TicketId::from(n),
        title: Title::try_from(format!("ticket {n}")).unwrap(),
        description: Description::try_from(format!("description {n}")).unwrap(),
        status: Status::ToDo,
        created_at: Timestamp(0),
        updated_at: Timestamp(0),
    }
}

/// What `WHERE $1 IS NULL OR id > $1 ORDER BY id LIMIT $2` returns from a
/// table holding the tickets `ids` (in order).
fn select_page(ids: &[u128], after: Option<TicketId>, limit: u32) -> Vec<Ticket> {
    ids.iter()
        .copied()
        .filter(|id| after.map_or(true, |a| *id > a.inner()))
        .take(limit as usize)
        .map(ticket)
        .collect()
}

#[test]
fn limit_defaults_and_clamps() {
    assert_eq!(list_limit(None), DEFAULT_LIMIT);
    assert_eq!(list_limit(None), 20);
    assert_eq!(list_limit(Some(0)), 1);
    assert_eq!(list_limit(Some(1)), 1);
    assert_eq!(list_limit(Some(50)), 50);
    assert_eq!(list_limit(Some(100)), MAX_LIMIT);
    assert_eq!(list_limit(Some(99999)), 100);
}

#[test]
fn full_page_points_after_its_last_ticket() {
    let page = TicketPage::new(vec![ticket(1), ticket(2)], 2);
    assert_eq!(page.items.len(), 2);
    assert_eq!(page.next_cursor, Some(TicketId::from(2u128)));
}

#[test]
fn short_or_empty_page_ends_the_list() {
    assert_eq!(TicketPage::new(vec![ticket(5)], 2).next_cursor, None);
    assert_eq!(TicketPage::new(Vec::new(), 20).next_cursor, None);
}

#[test]
fn paging_visits_every_ticket_in_creation_order() {
    let table = [3u128, 4, 9, 10, 15];
    let limit = list_limit(Some(2));
    let mut seen = Vec::new();
    let mut cursor: Option<TicketId> = None;
    loop {
        let page = list_reply(Ok(select_page(&table, cursor, limit)), limit).unwrap();
        for t in &page.items {
            seen.push(t.title.as_str().to_owned());
        }
        match page.next_cursor {
            Some(next) => cursor = Some(next),
            None => break,
        }
    }
    assert_eq!(
        seen,
        vec!["ticket 3", "ticket 4", "ticket 9", "ticket 10", "ticket 15"]
    );
}

#[test]
fn paging_ends_with_an_empty_page_when_the_table_fills_the_last_one() {
    let table = [1u128, 2, 3, 4];
    let limit = 2;
    let mut pages = 0;
    let mut seen = 0;
    let mut cursor = None;
    loop {
        let page = list_reply(Ok(select_page(&table, cursor, limit)), limit).unwrap();
        pages += 1;
        seen += page.items.len();
        match page.next_cursor {
            Some(next) => cursor = Some(next),
            None => break,
        }
    }
    assert_eq!(seen, 4);
    assert_eq!(pages, 3);
}

#[test]
fn clamped_limit_returns_every_ticket_of_a_small_table() {
    let table = [1u128, 2, 3];
    let limit = list_limit(Some(99999));
    let page = list_reply(Ok(select_page(&table, None, limit)), limit).unwrap();
    assert_eq!(page.items.len(), 3);
    assert_eq!(page.next_cursor, None);
}

#[test]
fn fresh_table_lists_nothing() {
    let limit = list_limit(None);
    let page = list_reply(Ok(select_page(&[], None, limit)), limit).unwrap();
    assert!(page.items.is_empty());
    assert_eq!(page.next_cursor, None);
}
