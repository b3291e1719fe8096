//! The repository of messages received through the service's HTTP interface.
//! It is an ordinary value owned by whoever serves the requests.
use vstd::prelude::*;

verus! {

/// A received message.
pub struct Email {
    pub id: String,
    pub from: String,
    pub to: String,
    pub subject: String,
    pub body: String,
    /// Arrival time, in seconds since the Unix epoch (UTC).
    pub received_at: i64,
    pub category: Option<String>,
    pub ai_processed: bool,
}

/// Why a lookup failed.
pub enum StoreError {
    /// No message is stored under this identifier.
    NotFound(String),
}

impl StoreError {
    /// The text of the error.
    pub fn message(&self) -> (r: String)
        ensures
            match self {
                StoreError::NotFound(id) => r@ == "이메일을 찾을 수 없음: "@ + id@,
            },
    {
        match self {
            StoreError::NotFound(id) => {
                let mut text = String::from_str("이메일을 찾을 수 없음: ");
                text.append(id.as_str());
                text
            },
        }
    }
}

/// What an `Email` holds, as plain values.
pub struct EmailView {
    pub id: Seq<char>,
    pub from: Seq<char>,
    pub to: Seq<char>,
    pub subject: Seq<char>,
    pub body: Seq<char>,
    pub received_at: i64,
    pub category: Option<Seq<char>>,
    pub ai_processed: bool,
}

impl View for Email {
    type V = EmailView;

    open spec fn view(&self) -> EmailView {
        EmailView {
            id: self.id@,
            from: self.from@,
            to: self.to@,
            subject: self.subject@,
            body: self.body@,
            received_at: self.received_at,
            category: match self.category {
                Some(c) => Some(c@),
                None => None,
            },
            ai_processed: self.ai_processed,
        }
    }
}

impl Email {
    /// A message that has just arrived: not yet classified.
    pub fn new(id: String, from: &str, to: &str, subject: &str, body: &str, received_at: i64) -> (r:
        Email)
        ensures
            r@ == (EmailView {
                id: id@,
                from: from@,
                to: to@,
                subject: subject@,
                body: body@,
                received_at,
                category: None,
                ai_processed: false,
            }),
    {
        Email {
            id,
            from: String::from_str(from),
            to: String::from_str(to),
            subject: String::from_str(subject),
            body: String::from_str(body),
            received_at,
            category: None,
            ai_processed: false,
        }
    }

    /// A copy of the message.
    pub fn duplicate(&self) -> (r: Email)
        ensures
            r@ == self@,
    {
        Email {
            id: self.id.clone(),
            from: self.from.clone(),
            to: self.to.clone(),
            subject: self.subject.clone(),
            body: self.body.clone(),
            received_at: self.received_at,
            category: match &self.category {
                Some(c) => Some(c.clone()),
                None => None,
            },
            ai_processed: self.ai_processed,
        }
    }
}

/// Whether a sequence of messages holds a message with identifier `id`.
pub open spec fn holds_id(s: Seq<EmailView>, id: Seq<char>) -> bool {
    exists|i: int| 0 <= i < s.len() && (#[trigger] s[i]).id == id
}

/// No two messages share an identifier.
pub open spec fn ids_unique(s: Seq<EmailView>) -> bool {
    forall|i: int, j: int| 0 <= i < s.len() && 0 <= j < s.len() && i != j ==> (#[trigger] s[i]).id
        != (#[trigger] s[j]).id
}

/// A position of the message with identifier `id`; with unique identifiers,
/// the position.
pub open spec fn index_of(s: Seq<EmailView>, id: Seq<char>) -> int {
    choose|i: int| 0 <= i < s.len() && (#[trigger] s[i]).id == id
}

/// The messages after storing `e`: it replaces, in place, the message with
/// the same identifier, or else is appended.
pub open spec fn put(s: Seq<EmailView>, e: EmailView) -> Seq<EmailView> {
    if holds_id(s, e.id) {
        s.update(index_of(s, e.id), e)
    } else {
        s.push(e)
    }
}

/// The record of a message that has just arrived.
pub open spec fn arrival(
    id: Seq<char>,
    from: Seq<char>,
    to: Seq<char>,
    subject: Seq<char>,
    body: Seq<char>,
    received_at: i64,
) -> EmailView {
    EmailView {
        id,
        from,
        to,
        subject,
        body,
        received_at,
        category: None,
        ai_processed: false,
    }
}

/// Storing a message into messages with unique identifiers keeps them
/// unique, and the message then sits under its identifier.
pub proof fn put_places_message(s: Seq<EmailView>, e: EmailView)
    requires
        ids_unique(s),
    ensures
        ids_unique(put(s, e)),
        holds_id(put(s, e), e.id),
        put(s, e)[index_of(put(s, e), e.id)] == e,
{
    let t = put(s, e);
    if holds_id(s, e.id) {
        let j = index_of(s, e.id);
        assert(t[j] == e);
        assert forall|a: int, b: int| 0 <= a < t.len() && 0 <= b < t.len() && a != b implies (
        #[trigger] t[a]).id != (#[trigger] t[b]).id by {
            if a == j {
                assert(s[b].id != s[j].id);
            } else if b == j {
                assert(s[a].id != s[j].id);
            } else {
                assert(s[a].id != s[b].id);
            }
        }
        let k = index_of(t, e.id);
        if k != j {
            assert(t[k].id == t[j].id);
        }
    } else {
        let n = s.len() as int;
        assert(t[n] == e);
        assert forall|a: int, b: int| 0 <= a < t.len() && 0 <= b < t.len() && a != b implies (
        #[trigger] t[a]).id != (#[trigger] t[b]).id by {
            if a == n {
                assert(t[b] == s[b]);
            } else if b == n {
                assert(t[a] == s[a]);
            } else {
                assert(s[a].id != s[b].id);
            }
        }
        let k = index_of(t, e.id);
        if k != n {
            assert(s[k] == t[k]);
        }
    }
}

/// The views of stored messages.
pub open spec fn views_of(v: Seq<Email>) -> Seq<EmailView> {
    v.map_values(|e: Email| e@)
}

/// The stored messages, each under its own identifier.
pub struct EmailStore {
    emails: Vec<Email>,
}

impl View for EmailStore {
    type V = Seq<EmailView>;

    closed spec fn view(&self) -> Seq<EmailView> {
        views_of(self.emails@)
    }
}

fn position_in(emails: &Vec<Email>, id: &String) -> (r: Option<usize>)
    ensures
        match r {
            Some(i) => i < emails@.len() && views_of(emails@)[i as int].id == id@,
            None => !holds_id(views_of(emails@), id@),
        },
{
    let mut i: usize = 0;
    while i < emails.len()
        invariant
            i <= emails@.len(),
            forall|k: int| 0 <= k < i ==> (#[trigger] views_of(emails@)[k]).id != id@,
        decreases emails@.len() - i,
    {
        if emails[i].id == *id {
            return Some(i);
        }
        i = i + 1;
    }
    None
}

impl EmailStore {
    #[verifier::type_invariant]
    spec fn inv(&self) -> bool {
        ids_unique(views_of(self.emails@))
    }

    /// An empty store.
    pub fn new() -> (r: EmailStore)
        ensures
            r@.len() == 0,
            ids_unique(r@),
    {
        let emails: Vec<Email> = Vec::new();
        assert(views_of(emails@) =~= Seq::<EmailView>::empty());
        EmailStore { emails }
    }

    /// The number of stored messages.
    pub fn len(&self) -> (r: usize)
        ensures
            r == self@.len(),
    {
        self.emails.len()
    }

    /// Stores `email` under its identifier, replacing in place a message
    /// stored under the same identifier.
    pub fn insert(&mut self, email: Email)
        ensures
            ids_unique(final(self)@),
            final(self)@ == put(old(self)@, email@),
    {
        proof {
            use_type_invariant(&*self);
        }
        let ghost before = self@;
        let ghost e = email@;
        let mut emails: Vec<Email> = Vec::new();
        assert(views_of(emails@) =~= Seq::<EmailView>::empty());
        std::mem::swap(&mut self.emails, &mut emails);
        assert(views_of(emails@) == before);
        match position_in(&emails, &email.id) {
            Some(i) => {
                proof {
                    let j = index_of(before, e.id);
                    if j != i as int {
                        assert(before[j].id == before[i as int].id);
                    }
                }
                emails.set(i, email);
                assert(views_of(emails@) =~= before.update(i as int, e));
            },
            None => {
                emails.push(email);
                assert(views_of(emails@) =~= before.push(e));
            },
        }
        proof {
            put_places_message(before, e);
        }
        std::mem::swap(&mut self.emails, &mut emails);
    }

    /// The message stored under `id`, if any.
    pub fn get(&self, id: &str) -> (r: Option<&Email>)
        ensures
            ids_unique(self@),
            r is Some <==> holds_id(self@, id@),
            r is Some ==> r->0@ == self@[index_of(self@, id@)],
    {
        proof {
            use_type_invariant(self);
        }
        let key = String::from_str(id);
        match position_in(&self.emails, &key) {
            Some(i) => {
                proof {
                    let j = index_of(self@, id@);
                    if j != i as int {
                        assert(self@[j].id == self@[i as int].id);
                    }
                }
                Some(&self.emails[i])
            },
            None => None,
        }
    }

    /// A copy of the message stored under `email_id`, or `NotFound` naming
    /// the identifier.
    pub fn get_email(&self, email_id: &str) -> (r: Result<Email, StoreError>)
        ensures
            ids_unique(self@),
            r is Ok <==> holds_id(self@, email_id@),
            r is Ok ==> r->Ok_0@ == self@[index_of(self@, email_id@)],
            r is Err ==> r->Err_0 == StoreError::NotFound(r->Err_0->NotFound_0)
                && r->Err_0->NotFound_0@ == email_id@,
    {
        match self.get(email_id) {
            Some(e) => Ok(e.duplicate()),
            None => Err(StoreError::NotFound(String::from_str(email_id))),
        }
    }

    /// Records a message that has just arrived under the identifier `id` at
    /// `received_at`, and returns the identifier. A message already stored
    /// under `id` is replaced in place.
    pub fn receive(
        &mut self,
        id: String,
        from: &str,
        to: &str,
        subject: &str,
        body: &str,
        received_at: i64,
    ) -> (r: String)
        ensures
            r@ == id@,
            ids_unique(final(self)@),
            final(self)@ == put(old(self)@, arrival(id@, from@, to@, subject@, body@, received_at)),
            holds_id(final(self)@, id@),
            final(self)@[index_of(final(self)@, id@)] == arrival(
                id@,
                from@,
                to@,
                subject@,
                body@,
                received_at,
            ),
    {
        proof {
            use_type_invariant(&*self);
        }
        let key = id.clone();
        let email = Email::new(id, from, to, subject, body, received_at);
        let ghost e = email@;
        self.insert(email);
        proof {
            put_places_message(old(self)@, e);
        }
        key
    }
}

/// Relies on uuid's `Uuid::new_v4` and its `Display`, which writes the
/// hyphenated form of `Hyphenated::LENGTH` (36) characters: a random
/// identifier.
#[verifier::external_body]
fn fresh_id() -> (r: String)
    ensures
        r@.len() == 36,
{
    uuid::Uuid::new_v4().to_string()
}

/// Relies on chrono's `Utc::now` and `DateTime::timestamp`: the current time
/// in whole seconds since the Unix epoch.
#[verifier::external_body]
fn now_secs() -> (r: i64) {
    chrono::Utc::now().timestamp()
}

/// Records an incoming message under a fresh random identifier, stamped with
/// the current time, and returns that identifier. Should the identifier
/// already be in use, the new message replaces the stored one.
pub fn process_incoming_email(store: &mut EmailStore, from: &str, to: &str, subject: &str, body: &str) -> (r:
    String)
    ensures
        r@.len() == 36,
        ids_unique(final(store)@),
        exists|t: i64|
            final(store)@ == put(old(store)@, #[trigger] arrival(r@, from@, to@, subject@, body@, t)),
        holds_id(final(store)@, r@),
        final(store)@[index_of(final(store)@, r@)] == arrival(
            r@,
            from@,
            to@,
            subject@,
            body@,
            final(store)@[index_of(final(store)@, r@)].received_at,
        ),
{
    let id = fresh_id();
    let received_at: i64 = now_secs();
    store.receive(id, from, to, subject, body, received_at)
}

} // verus!
