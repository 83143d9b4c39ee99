//! Ticket data: identifiers, validated titles and descriptions, drafts,
//! patches and the stored ticket.
use vstd::prelude::*;
use vstd::std_specs::convert::FromSpecImpl;
use vstd::std_specs::convert::TryFromSpecImpl;
use vstd::utf8::*;
use vstd::string::*;
use crate::text::{decimal, uuid_string, uuid_text, with_number};

verus! {

/// The length of `s` in bytes once encoded as UTF-8: what `str::len` returns.
pub open spec fn byte_len(s: Seq<char>) -> usize {
    encode_utf8(s).len() as usize
}

/// Where a ticket is in its life.
#[derive(Clone, Copy, Debug, PartialEq, Eq, Structural)]
pub enum Status {
    ToDo,
    InProgress,
    Done,
}

/// The name of a status on the wire and in the store.
pub open spec fn status_name(s: Status) -> Seq<char> {
    match s {
        Status::ToDo => "to_do"@,
        Status::InProgress => "in_progress"@,
        Status::Done => "done"@,
    }
}

impl Status {
    /// The status's name.
    pub fn name(self) -> (r: &'static str)
        ensures
            r@ == status_name(self),
    {
        match self {
            Status::ToDo => "to_do",
            Status::InProgress => "in_progress",
            Status::Done => "done",
        }
    }

    /// The status with exactly this name, if any.
    pub fn from_name(name: &str) -> (r: Option<Status>)
        ensures
            r matches Some(s) ==> status_name(s) == name@,
            r is None ==> forall|s: Status| status_name(s) != name@,
    {
        let n = name.to_owned();
        if n == String::from_str("to_do") {
            Some(Status::ToDo)
        } else if n == String::from_str("in_progress") {
            Some(Status::InProgress)
        } else if n == String::from_str("done") {
            Some(Status::Done)
        } else {
            None
        }
    }
}

/// Law: each status is named by the snake_case spelling of its variant:
/// `to_do`, `in_progress`, `done`.
pub proof fn lemma_status_spellings()
    ensures
        status_name(Status::ToDo) == seq!['t', 'o', '_', 'd', 'o'],
        status_name(Status::InProgress) == seq!['i', 'n', '_', 'p', 'r', 'o', 'g', 'r', 'e', 's', 's'],
        status_name(Status::Done) == seq!['d', 'o', 'n', 'e'],
{
    reveal_strlit("to_do");
    reveal_strlit("in_progress");
    reveal_strlit("done");
    assert(status_name(Status::ToDo) =~= seq!['t', 'o', '_', 'd', 'o']);
    assert(status_name(Status::InProgress) =~= seq!['i', 'n', '_', 'p', 'r', 'o', 'g', 'r', 'e', 's', 's']);
    assert(status_name(Status::Done) =~= seq!['d', 'o', 'n', 'e']);
}

/// Law: the names of the statuses differ, so a name read back gives the
/// status it was written from.
pub proof fn lemma_status_names_differ(a: Status, b: Status)
    ensures
        status_name(a) == status_name(b) <==> a == b,
{
    reveal_strlit("to_do");
    reveal_strlit("in_progress");
    reveal_strlit("done");
    if a != b {
        assert(status_name(a).len() != status_name(b).len() || status_name(a)[0] != status_name(b)[0]);
    }
}

/// The identifier the store gives a ticket: a UUID, held as its 128 bits
/// read big-endian. The store makes version 7 UUIDs, which lead with the
/// creation time, so their order is creation order.
#[derive(Clone, Copy, Debug, PartialEq, Eq, Ord, Hash, Structural)]
pub struct TicketId(pub u128);

impl View for TicketId {
    type V = u128;

    open spec fn view(&self) -> u128 {
        self.0
    }
}

impl TicketId {
    /// The number behind the identifier.
    pub fn inner(&self) -> (r: u128)
        ensures
            r == self@,
    {
        self.0
    }

    /// The identifier as its UUID text, as it appears in messages and URLs.
    pub fn text(&self) -> (r: String)
        ensures
            r@ == uuid_text(self@ as nat),
    {
        uuid_string(self.0)
    }
}

impl From<u128> for TicketId {
    fn from(value: u128) -> (r: TicketId) {
        TicketId(value)
    }
}

impl FromSpecImpl<u128> for TicketId {
    open spec fn obeys_from_spec() -> bool {
        true
    }

    open spec fn from_spec(v: u128) -> TicketId {
        TicketId(v)
    }
}


/// Why a description was refused.
#[derive(Debug, Clone, Copy, PartialEq, Eq, Structural)]
pub enum DescriptionError {
    Empty,
    TooShort(usize),
    TooLong(usize),
}

/// Why a title was refused.
#[derive(Debug, Clone, Copy, PartialEq, Eq, Structural)]
pub enum TitleError {
    Empty,
    TooShort(usize),
    TooLong(usize),
}

/// The text of a description error.
pub open spec fn description_error_text(e: DescriptionError) -> Seq<char> {
    match e {
        DescriptionError::Empty => "The description couldn't be empty"@,
        DescriptionError::TooShort(n) =>
            "The description couldn't be shorter than 5 characters, actual lenght: `"@
                + decimal(n as nat) + "`"@,
        DescriptionError::TooLong(n) =>
            "The description couldn't be longer than 200 characters, actual lenght: `"@
                + decimal(n as nat) + "`"@,
    }
}

/// The text of a title error.
pub open spec fn title_error_text(e: TitleError) -> Seq<char> {
    match e {
        TitleError::Empty => "The title couldn't be empty"@,
        TitleError::TooShort(n) =>
            "The title couldn't be shorter than 3 characters, actual lenght: `"@
                + decimal(n as nat) + "`"@,
        TitleError::TooLong(n) =>
            "The description couldn't be longer than 20 characters, actual lenght: `"@
                + decimal(n as nat) + "`"@,
    }
}

impl DescriptionError {
    /// The error as text.
    pub fn message(&self) -> (r: String)
        ensures
            r@ == description_error_text(*self),
    {
        match self {
            DescriptionError::Empty => String::from_str("The description couldn't be empty"),
            DescriptionError::TooShort(n) => with_number(
                "The description couldn't be shorter than 5 characters, actual lenght: `",
                *n as u64,
                "`",
            ),
            DescriptionError::TooLong(n) => with_number(
                "The description couldn't be longer than 200 characters, actual lenght: `",
                *n as u64,
                "`",
            ),
        }
    }
}

impl TitleError {
    /// The error as text.
    pub fn message(&self) -> (r: String)
        ensures
            r@ == title_error_text(*self),
    {
        match self {
            TitleError::Empty => String::from_str("The title couldn't be empty"),
            TitleError::TooShort(n) => with_number(
                "The title couldn't be shorter than 3 characters, actual lenght: `",
                *n as u64,
                "`",
            ),
            TitleError::TooLong(n) => with_number(
                "The description couldn't be longer than 20 characters, actual lenght: `",
                *n as u64,
                "`",
            ),
        }
    }
}

/// The verdict on a description of `len` bytes: between 5 and 200 bytes.
pub open spec fn description_verdict(len: usize) -> Result<(), DescriptionError> {
    if len == 0 {
        Err(DescriptionError::Empty)
    } else if len < 5 {
        Err(DescriptionError::TooShort(len))
    } else if len > 200 {
        Err(DescriptionError::TooLong(len))
    } else {
        Ok(())
    }
}

/// The verdict on a title of `len` bytes: between 3 and 20 bytes.
pub open spec fn title_verdict(len: usize) -> Result<(), TitleError> {
    if len == 0 {
        Err(TitleError::Empty)
    } else if len < 3 {
        Err(TitleError::TooShort(len))
    } else if len > 20 {
        Err(TitleError::TooLong(len))
    } else {
        Ok(())
    }
}

/// Law: a description is accepted exactly when it holds 5 to 200 bytes. An
/// empty one is `Empty`, one of 1 to 4 bytes is `TooShort` with its length,
/// one above 200 bytes is `TooLong` with its length.
pub proof fn lemma_description_lengths(len: usize)
    ensures
        (description_verdict(len) is Ok) == (5 <= len <= 200),
        (description_verdict(len) == Err::<(), DescriptionError>(DescriptionError::Empty)) == (len == 0),
        (description_verdict(len) == Err::<(), DescriptionError>(DescriptionError::TooShort(len)))
            == (1 <= len <= 4),
        (description_verdict(len) == Err::<(), DescriptionError>(DescriptionError::TooLong(len)))
            == (len > 200),
{
}

/// Law: a title is accepted exactly when it holds 3 to 20 bytes. An empty
/// one is `Empty`, one of 1 or 2 bytes is `TooShort` with its length, one
/// above 20 bytes is `TooLong` with its length.
pub proof fn lemma_title_lengths(len: usize)
    ensures
        (title_verdict(len) is Ok) == (3 <= len <= 20),
        (title_verdict(len) == Err::<(), TitleError>(TitleError::Empty)) == (len == 0),
        (title_verdict(len) == Err::<(), TitleError>(TitleError::TooShort(len))) == (1 <= len <= 2),
        (title_verdict(len) == Err::<(), TitleError>(TitleError::TooLong(len))) == (len > 20),
{
}

/// Checks the length of a description, counted in UTF-8 bytes.
pub fn validate_description(s: &str) -> (r: Result<(), DescriptionError>)
    ensures
        r == description_verdict(byte_len(s@)),
        r is Ok <==> 5 <= byte_len(s@) <= 200,
{
    let len = s.len();
    if len == 0 {
        Err(DescriptionError::Empty)
    } else if len < 5 {
        Err(DescriptionError::TooShort(len))
    } else if len > 200 {
        Err(DescriptionError::TooLong(len))
    } else {
        Ok(())
    }
}

/// Checks the length of a title, counted in UTF-8 bytes.
pub fn validate_title(s: &str) -> (r: Result<(), TitleError>)
    ensures
        r == title_verdict(byte_len(s@)),
        r is Ok <==> 3 <= byte_len(s@) <= 20,
{
    let len = s.len();
    if len == 0 {
        Err(TitleError::Empty)
    } else if len < 3 {
        Err(TitleError::TooShort(len))
    } else if len > 20 {
        Err(TitleError::TooLong(len))
    } else {
        Ok(())
    }
}

/// A ticket description: between 5 and 200 bytes of UTF-8.
#[derive(Debug, PartialEq, Eq)]
pub struct Description(String);

impl View for Description {
    type V = Seq<char>;

    closed spec fn view(&self) -> Seq<char> {
        self.0@
    }
}

impl Description {
    #[verifier::type_invariant]
    closed spec fn well_formed(self) -> bool {
        5 <= byte_len(self.0@) <= 200
    }

    /// The length of the description in bytes, always between 5 and 200.
    pub fn len(&self) -> (n: usize)
        ensures
            n == byte_len(self@),
            5 <= n <= 200,
    {
        proof {
            use_type_invariant(self);
        }
        self.0.as_str().len()
    }

    /// The text of the description.
    pub fn as_str(&self) -> (r: &str)
        ensures
            r@ == self@,
    {
        self.0.as_str()
    }
}

impl Clone for Description {
    fn clone(&self) -> (r: Description)
        ensures
            r@ == self@,
    {
        proof {
            use_type_invariant(self);
        }
        Description(self.0.clone())
    }
}

impl TryFrom<String> for Description {
    type Error = DescriptionError;

    fn try_from(value: String) -> (r: Result<Description, DescriptionError>)
        ensures
            r is Ok <==> description_verdict(byte_len(value@)) is Ok,
            r is Ok <==> 5 <= byte_len(value@) <= 200,
            r matches Ok(d) ==> d@ == value@,
            r matches Err(e) ==> description_verdict(byte_len(value@)) == Err::<(), _>(e),
    {
        match validate_description(value.as_str()) {
            Ok(()) => Ok(Description(value)),
            Err(e) => Err(e),
        }
    }
}

impl TryFromSpecImpl<String> for Description {
    open spec fn obeys_try_from_spec() -> bool {
        true
    }

    closed spec fn try_from_spec(v: String) -> Result<Description, DescriptionError> {
        match description_verdict(byte_len(v@)) {
            Ok(()) => Ok(Description(v)),
            Err(e) => Err(e),
        }
    }
}

/// Conversions from `&str` state their result by the `ensures` of `try_from`
/// itself; no spec function stands for them.
impl<'a> TryFromSpecImpl<&'a str> for Description {
    open spec fn obeys_try_from_spec() -> bool {
        false
    }

    closed spec fn try_from_spec(v: &'a str) -> Result<Description, DescriptionError> {
        arbitrary()
    }
}

impl<'a> TryFrom<&'a str> for Description {
    type Error = DescriptionError;

    fn try_from(value: &'a str) -> (r: Result<Description, DescriptionError>)
        ensures
            r is Ok <==> description_verdict(byte_len(value@)) is Ok,
            r is Ok <==> 5 <= byte_len(value@) <= 200,
            r matches Ok(d) ==> d@ == value@,
            r matches Err(e) ==> description_verdict(byte_len(value@)) == Err::<(), _>(e),
    {
        <Description as TryFrom<String>>::try_from(value.to_owned())
    }
}

/// A ticket title: between 3 and 20 bytes of UTF-8.
#[derive(Debug, PartialEq, Eq)]
pub struct Title(String);

impl View for Title {
    type V = Seq<char>;

    closed spec fn view(&self) -> Seq<char> {
        self.0@
    }
}

impl Title {
    #[verifier::type_invariant]
    closed spec fn well_formed(self) -> bool {
        3 <= byte_len(self.0@) <= 20
    }

    /// The length of the title in bytes, always between 3 and 20.
    pub fn len(&self) -> (n: usize)
        ensures
            n == byte_len(self@),
            3 <= n <= 20,
    {
        proof {
            use_type_invariant(self);
        }
        self.0.as_str().len()
    }

    /// The text of the title.
    pub fn as_str(&self) -> (r: &str)
        ensures
            r@ == self@,
    {
        self.0.as_str()
    }
}

impl Clone for Title {
    fn clone(&self) -> (r: Title)
        ensures
            r@ == self@,
    {
        proof {
            use_type_invariant(self);
        }
        Title(self.0.clone())
    }
}

impl TryFrom<String> for Title {
    type Error = TitleError;

    fn try_from(value: String) -> (r: Result<Title, TitleError>)
        ensures
            r is Ok <==> title_verdict(byte_len(value@)) is Ok,
            r is Ok <==> 3 <= byte_len(value@) <= 20,
            r matches Ok(d) ==> d@ == value@,
            r matches Err(e) ==> title_verdict(byte_len(value@)) == Err::<(), _>(e),
    {
        match validate_title(value.as_str()) {
            Ok(()) => Ok(Title(value)),
            Err(e) => Err(e),
        }
    }
}

impl TryFromSpecImpl<String> for Title {
    open spec fn obeys_try_from_spec() -> bool {
        true
    }

    closed spec fn try_from_spec(v: String) -> Result<Title, TitleError> {
        match title_verdict(byte_len(v@)) {
            Ok(()) => Ok(Title(v)),
            Err(e) => Err(e),
        }
    }
}

/// Conversions from `&str` state their result by the `ensures` of `try_from`
/// itself; no spec function stands for them.
impl<'a> TryFromSpecImpl<&'a str> for Title {
    open spec fn obeys_try_from_spec() -> bool {
        false
    }

    closed spec fn try_from_spec(v: &'a str) -> Result<Title, TitleError> {
        arbitrary()
    }
}

impl<'a> TryFrom<&'a str> for Title {
    type Error = TitleError;

    fn try_from(value: &'a str) -> (r: Result<Title, TitleError>)
        ensures
            r is Ok <==> title_verdict(byte_len(value@)) is Ok,
            r is Ok <==> 3 <= byte_len(value@) <= 20,
            r matches Ok(d) ==> d@ == value@,
            r matches Err(e) ==> title_verdict(byte_len(value@)) == Err::<(), _>(e),
    {
        <Title as TryFrom<String>>::try_from(value.to_owned())
    }
}

/// What a client sends to open a ticket.
#[derive(Debug, PartialEq, Eq)]
pub struct TicketDraft {
    title: Title,
    description: Description,
}

impl TicketDraft {
    /// The title the draft carries.
    pub closed spec fn spec_title(&self) -> Title {
        self.title
    }

    /// The description the draft carries.
    pub closed spec fn spec_description(&self) -> Description {
        self.description
    }

    pub fn new(title: Title, description: Description) -> (r: TicketDraft)
        ensures
            r.spec_title() == title,
            r.spec_description() == description,
    {
        TicketDraft { title, description }
    }

    pub fn title(&self) -> (r: &Title)
        ensures
            *r == self.spec_title(),
    {
        &self.title
    }

    pub fn description(&self) -> (r: &Description)
        ensures
            *r == self.spec_description(),
    {
        &self.description
    }
}

/// A partial update: each field that is present replaces the stored one.
#[derive(Debug, Default, PartialEq, Eq)]
pub struct TicketPatch {
    pub title: Option<Title>,
    pub description: Option<Description>,
    pub status: Option<Status>,
}

/// An instant: nanoseconds since the Unix epoch, UTC.
#[derive(Clone, Copy, Debug, PartialEq, Eq, Structural)]
pub struct Timestamp(pub i128);

/// A stored ticket, with the times the store gave it.
#[derive(Debug, Clone, PartialEq, Eq)]
pub struct Ticket {
    pub id: TicketId,
    pub title: Title,
    pub description: Description,
    pub status: Status,
    pub created_at: Timestamp,
    pub updated_at: Timestamp,
}

impl Ticket {
    /// A new ticket opened from `draft` under `id` at time `now`: every
    /// ticket starts as `ToDo`, created and last updated at `now`.
    pub fn new(id: TicketId, draft: TicketDraft, now: Timestamp) -> (r: Ticket)
        ensures
            r.id == id,
            r.title == draft.spec_title(),
            r.description == draft.spec_description(),
            r.status == Status::ToDo,
            r.created_at == now,
            r.updated_at == now,
    {
        let TicketDraft { title, description } = draft;
        Ticket { id, title, description, status: Status::ToDo, created_at: now, updated_at: now }
    }
}

/// The ticket `t` once `p` is applied at time `now`: a field present in the
/// patch replaces the stored one, an absent field keeps its stored value, the
/// identifier and the creation time never change, and the update time
/// becomes `now`.
pub open spec fn patched(t: Ticket, p: TicketPatch, now: Timestamp) -> Ticket {
    Ticket {
        id: t.id,
        title: match p.title {
            Some(x) => x,
            None => t.title,
        },
        description: match p.description {
            Some(x) => x,
            None => t.description,
        },
        status: match p.status {
            Some(x) => x,
            None => t.status,
        },
        created_at: t.created_at,
        updated_at: now,
    }
}

/// Law: each field a patch carries replaces the stored one, each field it
/// lacks keeps its stored value.
pub proof fn lemma_patch_fields(t: Ticket, p: TicketPatch, now: Timestamp)
    ensures
        forall|x: Title| p.title == Some(x) ==> patched(t, p, now).title == x,
        p.title is None ==> patched(t, p, now).title == t.title,
        forall|x: Description| p.description == Some(x) ==> patched(t, p, now).description == x,
        p.description is None ==> patched(t, p, now).description == t.description,
        forall|x: Status| p.status == Some(x) ==> patched(t, p, now).status == x,
        p.status is None ==> patched(t, p, now).status == t.status,
{
}

/// Law: a patch keeps the identifier and the creation time and sets the
/// update time to the time of the update.
pub proof fn lemma_patch_times(t: Ticket, p: TicketPatch, now: Timestamp)
    ensures
        patched(t, p, now).id == t.id,
        patched(t, p, now).created_at == t.created_at,
        patched(t, p, now).updated_at == now,
{
}

/// Law: a patch that carries no field changes nothing but the update time.
pub proof fn lemma_empty_patch_changes_nothing(t: Ticket, now: Timestamp)
    ensures
        patched(t, TicketPatch { title: None, description: None, status: None }, now)
            == (Ticket { updated_at: now, ..t }),
{
}

/// Law: applying the same patch twice gives what applying it once, at the
/// later time, gives.
pub proof fn lemma_patch_is_idempotent(t: Ticket, p: TicketPatch, first: Timestamp, second: Timestamp)
    ensures
        patched(patched(t, p, first), p, second) == patched(t, p, second),
{
}

} // verus!
