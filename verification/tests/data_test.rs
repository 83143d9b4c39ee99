use ticket_management::data::{validate_description, validate_title};
use ticket_management::{
    Description, DescriptionError, Status, Ticket, TicketDraft, TicketId, TicketPatch, Timestamp,
    Title, TitleError,
};

#[test]
fn title_accepts_three_to_twenty_bytes() {
    assert_eq!(Title::try_from("abc").unwrap().as_str(), "abc");
    assert_eq!(
        Title::try_from("twenty bytes exactly").unwrap().as_str(),
        "twenty bytes exactly"
    );
    assert_eq!(Title::try_from("test title").unwrap().len(), 10);
}

#[test]
fn title_rejects_each_bad_length() {
    assert_eq!(Title::try_from(""), Err(TitleError::Empty));
    assert_eq!(Title::try_from("t"), Err(TitleError::TooShort(1)));
    assert_eq!(Title::try_from("ab"), Err(TitleError::TooShort(2)));
    assert_eq!(
        Title::try_from("twenty-one bytes long"),
        Err(TitleError::TooLong(21))
    );
}

#[test]
fn title_length_counts_utf8_bytes() {
    // two characters, four bytes
    assert!(Title::try_from("éé").is_ok());
    // one character, two bytes
    assert_eq!(Title::try_from("é"), Err(TitleError::TooShort(2)));
}

#[test]
fn title_from_owned_string() {
    let t = Title::try_from(String::from("owned")).unwrap();
    assert_eq!(t.as_str(), "owned");
    assert_eq!(
        Title::try_from(String::from("no")),
        Err(TitleError::TooShort(2))
    );
}

#[test]
fn description_accepts_five_to_two_hundred_bytes() {
    assert_eq!(
        Description::try_from("test description").unwrap().as_str(),
        "test description"
    );
    assert!(Description::try_from("fives").is_ok());
    let longest = "x".repeat(200);
    assert_eq!(Description::try_from(longest.as_str()).unwrap().len(), 200);
}

#[test]
fn description_rejects_each_bad_length() {
    assert_eq!(Description::try_from(""), Err(DescriptionError::Empty));
    assert_eq!(Description::try_from("te"), Err(DescriptionError::TooShort(2)));
    assert_eq!(Description::try_from("four"), Err(DescriptionError::TooShort(4)));
    let too_long = "x".repeat(201);
    assert_eq!(
        Description::try_from(too_long),
        Err(DescriptionError::TooLong(201))
    );
}

#[test]
fn validators_report_lengths() {
    assert_eq!(validate_title("abc"), Ok(()));
    assert_eq!(validate_title(""), Err(TitleError::Empty));
    assert_eq!(validate_description("hello"), Ok(()));
    assert_eq!(validate_description("hey"), Err(DescriptionError::TooShort(3)));
}

#[test]
fn error_texts() {
    assert_eq!(TitleError::Empty.message(), "The title couldn't be empty");
    assert_eq!(
        TitleError::TooShort(1).message(),
        "The title couldn't be shorter than 3 characters, actual lenght: `1`"
    );
    assert_eq!(
        TitleError::TooLong(21).message(),
        "The description couldn't be longer than 20 characters, actual lenght: `21`"
    );
    assert_eq!(
        DescriptionError::Empty.message(),
        "The description couldn't be empty"
    );
    assert_eq!(
        DescriptionError::TooShort(2).message(),
        "The description couldn't be shorter than 5 characters, actual lenght: `2`"
    );
    assert_eq!(
        DescriptionError::TooLong(201).message(),
        "The description couldn't be longer than 200 characters, actual lenght: `201`"
    );
}

#[test]
fn ticket_id_round_trips_its_bits() {
    let id = TicketId::from(42u128);
    assert_eq!(id.inner(), 42);
    assert_eq!(id.text(), "00000000-0000-0000-0000-00000000002a");
    assert_eq!(
        TicketId::from(0u128).text(),
        "00000000-0000-0000-0000-000000000000"
    );
    assert_eq!(
        TicketId::from(0xa1a2a3a4b1b2c1c2d1d2d3d4d5d6d7d8u128).text(),
        "a1a2a3a4-b1b2-c1c2-d1d2-d3d4d5d6d7d8"
    );
    assert_eq!(
        TicketId::from(u128::MAX).text(),
        "ffffffff-ffff-ffff-ffff-ffffffffffff"
    );
    assert!(TicketId::from(1u128) < TicketId::from(2u128));
}

#[test]
fn new_ticket_starts_to_do() {
    let draft = TicketDraft::new(
        Title::try_from("title").unwrap(),
        Description::try_from("description").unwrap(),
    );
    assert_eq!(draft.title().as_str(), "title");
    assert_eq!(draft.description().as_str(), "description");
    let ticket = Ticket::new(TicketId::from(7u128), draft, Timestamp(42));
    assert_eq!(ticket.id, TicketId::from(7u128));
    assert_eq!(ticket.title.as_str(), "title");
    assert_eq!(ticket.description.as_str(), "description");
    assert_eq!(ticket.status, Status::ToDo);
    assert_eq!(ticket.created_at, Timestamp(42));
    assert_eq!(ticket.updated_at, Timestamp(42));
}

#[test]
fn empty_patch_is_default() {
    let patch = TicketPatch::default();
    assert!(patch.title.is_none());
    assert!(patch.description.is_none());
    assert!(patch.status.is_none());
}

#[test]
fn status_names_read_back() {
    for s in [Status::ToDo, Status::InProgress, Status::Done] {
        assert_eq!(Status::from_name(s.name()), Some(s));
    }
    assert_eq!(Status::InProgress.name(), "in_progress");
    assert_eq!(Status::from_name("InProgress"), None);
}

#[test]
fn ticket_ids_order_as_their_numbers() {
    assert!(TicketId::from(1u128) < TicketId::from(2u128));
    assert!(TicketId::from(9u128) > TicketId::from(3u128));
    assert!(!(TicketId::from(4u128) < TicketId::from(4u128)));
    assert_eq!(
        TicketId::from(4u128).partial_cmp(&TicketId::from(4u128)),
        Some(std::cmp::Ordering::Equal)
    );
}
