//! The roster provider: which on-call recipients a schedule has, and the
//! phone numbers under which each of them can be reached.
use vstd::prelude::*;
use url::ParseError;
use crate::text::{insert_sorted, strictly_sorted, text_equals, texts};
use crate::config::OPSGENIE_BASEURL_DEFAULT;
use crate::util::{join_url, joined_url, parse_url, parsed_url, query_pair, query_texts, HttpGet};
use crate::Schedule;

verus! {

/// The number with every `-` taken out.
pub open spec fn strip_separators(s: Seq<char>) -> Seq<char>
    decreases s.len(),
{
    if s.len() == 0 {
        s
    } else {
        let rest = strip_separators(s.drop_last());
        if s.last() == '-' {
            rest
        } else {
            rest.push(s.last())
        }
    }
}

/// The normal form of a phone number: its separators taken out, and a leading
/// `+` where it has none.
pub open spec fn normalized_phone(s: Seq<char>) -> Seq<char> {
    let digits = strip_separators(s);
    if digits.len() > 0 && digits[0] == '+' {
        digits
    } else {
        seq!['+'] + digits
    }
}

pub proof fn lemma_strip_removes_separators(s: Seq<char>)
    ensures
        forall|i: int| 0 <= i < strip_separators(s).len() ==> #[trigger] strip_separators(s)[i] != '-',
    decreases s.len(),
{
    if s.len() > 0 {
        let rest = strip_separators(s.drop_last());
        lemma_strip_removes_separators(s.drop_last());
        if s.last() != '-' {
            let out = rest.push(s.last());
            assert forall|i: int| 0 <= i < out.len() implies #[trigger] out[i] != '-' by {
                if i < rest.len() {
                    assert(out[i] == rest[i]);
                }
            }
        }
    }
}

pub proof fn lemma_strip_keeps_clean_text(s: Seq<char>)
    requires
        forall|i: int| 0 <= i < s.len() ==> #[trigger] s[i] != '-',
    ensures
        strip_separators(s) == s,
    decreases s.len(),
{
    if s.len() > 0 {
        lemma_strip_keeps_clean_text(s.drop_last());
        assert(s.drop_last().push(s.last()) == s);
    }
}

/// Normalising a phone number twice gives what normalising it once gives, and
/// a normal form starts with `+` and holds no separator.
pub proof fn lemma_normalized_phone_idempotent(s: Seq<char>)
    ensures
        normalized_phone(normalized_phone(s)) == normalized_phone(s),
        normalized_phone(s).len() > 0,
        normalized_phone(s)[0] == '+',
        forall|i: int|
            0 <= i < normalized_phone(s).len() ==> #[trigger] normalized_phone(s)[i] != '-',
{
    let n = normalized_phone(s);
    let digits = strip_separators(s);
    lemma_strip_removes_separators(s);
    if !(digits.len() > 0 && digits[0] == '+') {
        assert forall|i: int| 0 <= i < n.len() implies #[trigger] n[i] != '-' by {
            if i > 0 {
                assert(n[i] == digits[i - 1]);
            }
        }
    }
    lemma_strip_keeps_clean_text(n);
}

/// Takes the separators out of a phone number and makes it start with `+`.
pub fn format_phone_number(number: String) -> (r: String)
    ensures
        r@ == normalized_phone(number@),
{
    let text = number.as_str();
    let len = text.unicode_len();
    let mut digits = String::new();
    let mut i: usize = 0;
    while i < len
        invariant
            len == number@.len(),
            text@ == number@,
            i <= len,
            digits@ == strip_separators(number@.take(i as int)),
        decreases len - i,
    {
        let c = text.get_char(i);
        assert(number@.take(i + 1).drop_last() == number@.take(i as int));
        if c != '-' {
            let one = text.substring_char(i, i + 1);
            assert(one@ == seq![c]);
            digits.append(one);
        }
        i = i + 1;
    }
    assert(number@.take(len as int) == number@);
    if digits.unicode_len() > 0 && digits.as_str().get_char(0) == '+' {
        digits
    } else {
        let plus = String::from_str("+");
        proof {
            reveal_strlit("+");
        }
        plus.concat(digits.as_str())
    }
}

/// One way to reach a user, as the roster provider lists it.
#[derive(Debug, Clone, PartialEq, Eq, Hash)]
pub struct UserContact {
    pub to: String,
    pub contact_method: String,
    pub enabled: bool,
}

/// Whether a contact reaches a phone: by voice or by text message.
pub open spec fn is_phone_contact(c: UserContact) -> bool {
    c.contact_method@ == "voice"@ || c.contact_method@ == "sms"@
}

/// The normal forms of the phone contacts among `contacts`.
pub open spec fn phone_numbers_of(contacts: Seq<UserContact>) -> Set<Seq<char>> {
    Set::new(
        |t: Seq<char>|
            exists|i: int|
                0 <= i < contacts.len() && is_phone_contact(#[trigger] contacts[i]) && t
                    == normalized_phone(contacts[i].to@),
    )
}

/// The phone numbers of a user: those of the voice and text-message contacts,
/// normalised, in order and without repeats.
pub fn phone_numbers_from_contacts(contacts: &Vec<UserContact>) -> (r: Vec<String>)
    ensures
        strictly_sorted(texts(r@)),
        texts(r@).to_set() == phone_numbers_of(contacts@),
{
    let mut numbers: Vec<String> = Vec::new();
    let mut i: usize = 0;
    assert(texts(numbers@).to_set() =~= phone_numbers_of(contacts@.take(0)));
    while i < contacts.len()
        invariant
            i <= contacts@.len(),
            strictly_sorted(texts(numbers@)),
            texts(numbers@).to_set() == phone_numbers_of(contacts@.take(i as int)),
        decreases contacts@.len() - i,
    {
        let contact = &contacts[i];
        let ghost prefix = contacts@.take(i as int);
        let ghost next = contacts@.take(i + 1);
        assert(next == prefix.push(*contact));
        if text_equals(contact.contact_method.as_str(), "voice") || text_equals(
            contact.contact_method.as_str(),
            "sms",
        ) {
            let number = format_phone_number(contact.to.clone());
            insert_sorted(&mut numbers, number);
            assert forall|t: Seq<char>| #[trigger]
                phone_numbers_of(next).contains(t) <==> phone_numbers_of(prefix).insert(
                    normalized_phone(contact.to@),
                ).contains(t) by {
                if phone_numbers_of(prefix).contains(t) {
                    let k = choose|k: int|
                        0 <= k < prefix.len() && is_phone_contact(#[trigger] prefix[k]) && t
                            == normalized_phone(prefix[k].to@);
                    assert(next[k] == prefix[k]);
                }
                if phone_numbers_of(next).contains(t) {
                    let k = choose|k: int|
                        0 <= k < next.len() && is_phone_contact(#[trigger] next[k]) && t
                            == normalized_phone(next[k].to@);
                    if k < i {
                        assert(prefix[k] == next[k]);
                    }
                }
                if t == normalized_phone(contact.to@) {
                    assert(is_phone_contact(next[i as int]));
                }
            }
            assert(phone_numbers_of(next) =~= phone_numbers_of(prefix).insert(
                normalized_phone(contact.to@),
            ));
        } else {
            assert forall|t: Seq<char>| #[trigger]
                phone_numbers_of(next).contains(t) <==> phone_numbers_of(prefix).contains(t) by {
                if phone_numbers_of(prefix).contains(t) {
                    let k = choose|k: int|
                        0 <= k < prefix.len() && is_phone_contact(#[trigger] prefix[k]) && t
                            == normalized_phone(prefix[k].to@);
                    assert(next[k] == prefix[k]);
                }
                if phone_numbers_of(next).contains(t) {
                    let k = choose|k: int|
                        0 <= k < next.len() && is_phone_contact(#[trigger] next[k]) && t
                            == normalized_phone(next[k].to@);
                    if k < i {
                        assert(prefix[k] == next[k]);
                    }
                }
            }
            assert(phone_numbers_of(next) =~= phone_numbers_of(prefix));
        }
        i = i + 1;
    }
    assert(contacts@.take(contacts@.len() as int) == contacts@);
    numbers
}

/// An on-call recipient and the phone numbers under which they can be reached,
/// in order and without repeats.
#[derive(Debug, Clone, PartialEq, Eq, Hash)]
pub struct UserPhoneNumber {
    pub name: String,
    pub phone: Vec<String>,
}

/// Who is on call: the first recipient that can be reached by phone, their
/// first number, and every recipient with their numbers.
#[derive(Debug, Clone, PartialEq, Eq, Hash)]
pub struct AlertInfo {
    pub username: String,
    pub phone_number: String,
    pub full_information: Vec<UserPhoneNumber>,
}

/// Why the on-call person could not be found.
#[derive(Debug)]
pub enum Error {
    RequestOnCallPerson { source: crate::util::Error },
    RequestPhoneNumberForPerson { source: crate::util::Error, username: String },
    NoOnCallPerson,
    NoPhoneNumber { username: String },
    BuildUrl { source: ParseError },
}

impl Error {
    /// The HTTP status that answers a request which failed with this error.
    pub fn status_code(&self) -> (r: u16)
        ensures
            r == match self {
                Error::RequestOnCallPerson { .. } => 422u16,
                Error::NoOnCallPerson => 418u16,
                Error::NoPhoneNumber { .. } => 418u16,
                Error::RequestPhoneNumberForPerson { .. } => 500u16,
                Error::BuildUrl { .. } => 500u16,
            },
    {
        match self {
            Error::RequestOnCallPerson { .. } => 422,
            Error::NoOnCallPerson => 418,
            Error::NoPhoneNumber { .. } => 418,
            Error::RequestPhoneNumberForPerson { .. } => 500,
            Error::BuildUrl { .. } => 500,
        }
    }
}

/// The identifier of a schedule.
pub open spec fn schedule_identifier(schedule: Schedule) -> Seq<char> {
    match schedule {
        Schedule::ScheduleById(by_id) => by_id.id@,
        Schedule::ScheduleByName(by_name) => by_name.name@,
    }
}

/// How the identifier of a schedule is to be read by the provider.
pub open spec fn schedule_identifier_type(schedule: Schedule) -> Seq<char> {
    match schedule {
        Schedule::ScheduleById(_) => "id"@,
        Schedule::ScheduleByName(_) => "name"@,
    }
}

/// The path, under the provider's URL, of a schedule's on-call recipients.
pub open spec fn on_call_path(schedule: Schedule) -> Seq<char> {
    "schedules/"@ + schedule_identifier(schedule) + "/on-calls"@
}

pub open spec fn on_call_query(schedule: Schedule) -> Seq<(Seq<char>, Seq<char>)> {
    seq![("flat"@, "true"@), ("scheduleIdentifierType"@, schedule_identifier_type(schedule))]
}

/// The path, under the provider's URL, of a user's contacts.
pub open spec fn user_path(username: Seq<char>) -> Seq<char> {
    "users/"@ + username
}

pub open spec fn user_query() -> Seq<(Seq<char>, Seq<char>)> {
    seq![("expand"@, "contact"@)]
}

/// `r` is the GET of `path` under `base_url` with `query`, or the error that
/// the path cannot be joined to the URL.
pub open spec fn is_request_for(
    r: Result<HttpGet, Error>,
    base_url: Seq<char>,
    path: Seq<char>,
    query: Seq<(Seq<char>, Seq<char>)>,
) -> bool {
    match joined_url(base_url, path) {
        Some(u) => r matches Ok(req) && req.url@ == u && query_texts(req.query@) == query,
        None => r matches Err(Error::BuildUrl { .. }),
    }
}

/// The request for the on-call recipients of a schedule.
pub fn on_call_request(base_url: &str, schedule: &Schedule) -> (r: Result<HttpGet, Error>)
    ensures
        is_request_for(r, base_url@, on_call_path(*schedule), on_call_query(*schedule)),
{
    let (identifier, identifier_type) = match schedule {
        Schedule::ScheduleById(by_id) => (by_id.id.as_str(), "id"),
        Schedule::ScheduleByName(by_name) => (by_name.name.as_str(), "name"),
    };
    let path = String::from_str("schedules/").concat(identifier).concat("/on-calls");
    match join_url(base_url, path.as_str()) {
        Ok(url) => {
            let mut query: Vec<(String, String)> = Vec::new();
            query.push(query_pair("flat", "true"));
            query.push(query_pair("scheduleIdentifierType", identifier_type));
            assert(query_texts(query@) =~= on_call_query(*schedule));
            Ok(HttpGet { url, query })
        },
        Err(source) => Err(Error::BuildUrl { source }),
    }
}

/// The request for the contacts of a user.
pub fn contacts_request(base_url: &str, username: &str) -> (r: Result<HttpGet, Error>)
    ensures
        is_request_for(r, base_url@, user_path(username@), user_query()),
{
    let path = String::from_str("users/").concat(username);
    match join_url(base_url, path.as_str()) {
        Ok(url) => {
            let mut query: Vec<(String, String)> = Vec::new();
            query.push(query_pair("expand", "contact"));
            assert(query_texts(query@) =~= user_query());
            Ok(HttpGet { url, query })
        },
        Err(source) => Err(Error::BuildUrl { source }),
    }
}

pub open spec fn has_phone(entry: UserPhoneNumber) -> bool {
    entry.phone@.len() > 0
}

/// `r` is what the roster `entries` answers: the first entry with a phone
/// number is the primary contact; without any, the first entry's user has no
/// phone number; without entries, no one is on call.
pub open spec fn roster_answer(entries: Seq<UserPhoneNumber>, r: Result<AlertInfo, Error>) -> bool {
    match r {
        Ok(info) => exists|k: int|
            0 <= k < entries.len() && has_phone(#[trigger] entries[k]) && (forall|j: int|
                0 <= j < k ==> !has_phone(#[trigger] entries[j])) && info.username@
                == entries[k].name@ && info.phone_number@ == entries[k].phone@[0]@
                && info.full_information@ == entries,
        Err(e) => if entries.len() == 0 {
            e is NoOnCallPerson
        } else {
            &&& forall|j: int| 0 <= j < entries.len() ==> !has_phone(#[trigger] entries[j])
            &&& (e matches Error::NoPhoneNumber { username } && username@ == entries[0].name@)
        },
    }
}

/// The answer for a resolved roster.
pub fn alert_info_from_roster(entries: Vec<UserPhoneNumber>) -> (r: Result<AlertInfo, Error>)
    ensures
        roster_answer(entries@, r),
{
    if entries.len() == 0 {
        return Err(Error::NoOnCallPerson);
    }
    let mut k: usize = 0;
    while k < entries.len() && entries[k].phone.len() == 0
        invariant
            k <= entries@.len(),
            forall|j: int| 0 <= j < k ==> !has_phone(#[trigger] entries@[j]),
        decreases entries@.len() - k,
    {
        k = k + 1;
    }
    if k == entries.len() {
        return Err(Error::NoPhoneNumber { username: entries[0].name.clone() });
    }
    let username = entries[k].name.clone();
    let phone_number = entries[k].phone[0].clone();
    assert(has_phone(entries@[k as int]));
    Ok(AlertInfo { username, phone_number, full_information: entries })
}

/// What the roster lookup needs next: a GET whose answer is to be handed back,
/// or its answer.
#[derive(Debug)]
pub enum RosterStep {
    Fetch(HttpGet),
    Done(Result<AlertInfo, Error>),
}

/// `step` fetches `path` under `base_url` with `query`, or ends with the error
/// that the path cannot be joined to the URL.
pub open spec fn is_fetch_of(
    step: RosterStep,
    base_url: Seq<char>,
    path: Seq<char>,
    query: Seq<(Seq<char>, Seq<char>)>,
) -> bool {
    match joined_url(base_url, path) {
        Some(u) => step matches RosterStep::Fetch(req) && req.url@ == u && query_texts(req.query@)
            == query,
        None => step matches RosterStep::Done(Err(Error::BuildUrl { .. })),
    }
}

/// `entry` is the user `name` with the phone numbers of `contacts`.
pub open spec fn is_entry_for(
    entry: UserPhoneNumber,
    name: Seq<char>,
    contacts: Seq<UserContact>,
) -> bool {
    &&& entry.name@ == name
    &&& strictly_sorted(texts(entry.phone@))
    &&& texts(entry.phone@).to_set() == phone_numbers_of(contacts)
}

fn fetch_or_fail(request: Result<HttpGet, Error>) -> (step: RosterStep)
    ensures
        match request {
            Ok(req) => step == RosterStep::Fetch(req),
            Err(e) => step == RosterStep::Done(Err(e)),
        },
{
    match request {
        Ok(req) => RosterStep::Fetch(req),
        Err(e) => RosterStep::Done(Err(e)),
    }
}

/// A lookup of who is on call for a schedule, one provider answer at a time:
/// the schedule's recipients first, then the contacts of each recipient in
/// the provider's order. The first failed answer ends it.
pub struct RosterLookup {
    pub base_url: String,
    pub recipients: Vec<String>,
    pub found: Vec<UserPhoneNumber>,
}

impl RosterLookup {
    /// Starts a lookup against the provider at `base_url`: the first step
    /// fetches the on-call recipients of `schedule`.
    pub fn start(base_url: String, schedule: &Schedule) -> (r: (RosterLookup, RosterStep))
        ensures
            r.0.base_url@ == base_url@,
            r.0.recipients@.len() == 0,
            r.0.found@.len() == 0,
            is_fetch_of(r.1, base_url@, on_call_path(*schedule), on_call_query(*schedule)),
    {
        let step = fetch_or_fail(on_call_request(base_url.as_str(), schedule));
        (RosterLookup { base_url, recipients: Vec::new(), found: Vec::new() }, step)
    }

    /// Takes the answer to the fetch of the on-call recipients. An empty list
    /// means that no one is on call; otherwise the contacts of the first
    /// recipient are fetched next.
    pub fn on_call_received(&mut self, response: Result<Vec<String>, crate::util::Error>) -> (step:
        RosterStep)
        requires
            old(self).recipients@.len() == 0,
            old(self).found@.len() == 0,
        ensures
            final(self).base_url@ == old(self).base_url@,
            final(self).found@.len() == 0,
            match response {
                Err(e) => step == RosterStep::Done(Err(Error::RequestOnCallPerson { source: e })),
                Ok(v) => if v@.len() == 0 {
                    step matches RosterStep::Done(Err(Error::NoOnCallPerson))
                } else {
                    final(self).recipients@ == v@ && is_fetch_of(
                        step,
                        old(self).base_url@,
                        user_path(v@[0]@),
                        user_query(),
                    )
                },
            },
    {
        match response {
            Err(source) => RosterStep::Done(Err(Error::RequestOnCallPerson { source })),
            Ok(recipients) => {
                if recipients.len() == 0 {
                    return RosterStep::Done(Err(Error::NoOnCallPerson));
                }
                let step = fetch_or_fail(
                    contacts_request(self.base_url.as_str(), recipients[0].as_str()),
                );
                self.recipients = recipients;
                step
            },
        }
    }

    /// Takes the answer to the fetch of the contacts of the next recipient.
    /// Their phone numbers are kept; then the next recipient's contacts are
    /// fetched, or, after the last one, the answer is given.
    pub fn contacts_received(
        &mut self,
        response: Result<Vec<UserContact>, crate::util::Error>,
    ) -> (step: RosterStep)
        requires
            old(self).found@.len() < old(self).recipients@.len(),
        ensures
            final(self).base_url@ == old(self).base_url@,
            final(self).recipients@ == old(self).recipients@,
            match response {
                Err(e) => step matches RosterStep::Done(
                    Err(Error::RequestPhoneNumberForPerson { source, username }),
                ) && source == e && username@ == old(self).recipients@[old(
                    self,
                ).found@.len() as int]@,
                Ok(contacts) => exists|entry: UserPhoneNumber|
                    #[trigger] is_entry_for(
                        entry,
                        old(self).recipients@[old(self).found@.len() as int]@,
                        contacts@,
                    ) && if old(self).found@.len() + 1 < old(self).recipients@.len() {
                        &&& final(self).found@ == old(self).found@.push(entry)
                        &&& is_fetch_of(
                            step,
                            old(self).base_url@,
                            user_path(old(self).recipients@[old(self).found@.len() + 1int]@),
                            user_query(),
                        )
                    } else {
                        step matches RosterStep::Done(r) && roster_answer(
                            old(self).found@.push(entry),
                            r,
                        )
                    },
            },
    {
        let k = self.found.len();
        match response {
            Err(source) => {
                let username = self.recipients[k].clone();
                RosterStep::Done(Err(Error::RequestPhoneNumberForPerson { source, username }))
            },
            Ok(contacts) => {
                let phone = phone_numbers_from_contacts(&contacts);
                let entry = UserPhoneNumber { name: self.recipients[k].clone(), phone };
                let ghost new_entry = entry;
                assert(is_entry_for(new_entry, self.recipients@[k as int]@, contacts@));
                self.found.push(entry);
                let next = self.found.len();
                if next < self.recipients.len() {
                    fetch_or_fail(
                        contacts_request(self.base_url.as_str(), self.recipients[next].as_str()),
                    )
                } else {
                    let mut entries: Vec<UserPhoneNumber> = Vec::new();
                    core::mem::swap(&mut entries, &mut self.found);
                    RosterStep::Done(alert_info_from_roster(entries))
                }
            },
        }
    }
}

/// The provider's public URL.
pub fn get_base_url() -> (r: Result<String, ParseError>)
    ensures
        match r {
            Ok(u) => parsed_url(OPSGENIE_BASEURL_DEFAULT@) == Some(u@),
            Err(_) => parsed_url(OPSGENIE_BASEURL_DEFAULT@) is None,
        },
{
    parse_url(OPSGENIE_BASEURL_DEFAULT)
}

/// Every phone number of a roster, recipient after recipient.
pub open spec fn all_numbers(entries: Seq<UserPhoneNumber>) -> Seq<Seq<char>>
    decreases entries.len(),
{
    if entries.len() == 0 {
        seq![]
    } else {
        all_numbers(entries.drop_last()) + texts(entries.last().phone@)
    }
}

impl AlertInfo {
    /// The numbers to ring: those of every recipient, in the roster's order.
    pub fn all_phone_numbers(&self) -> (r: Vec<String>)
        ensures
            texts(r@) == all_numbers(self.full_information@),
    {
        let entries = &self.full_information;
        let mut numbers: Vec<String> = Vec::new();
        let mut i: usize = 0;
        while i < entries.len()
            invariant
                i <= entries@.len(),
                texts(numbers@) == all_numbers(entries@.take(i as int)),
            decreases entries@.len() - i,
        {
            let phone = &entries[i].phone;
            let ghost start = texts(numbers@);
            let mut j: usize = 0;
            while j < phone.len()
                invariant
                    j <= phone@.len(),
                    texts(numbers@) == start + texts(phone@.take(j as int)),
                decreases phone@.len() - j,
            {
                let ghost before = numbers@;
                numbers.push(phone[j].clone());
                assert(texts(numbers@) =~= texts(before).push(phone@[j as int]@));
                assert(texts(phone@.take(j + 1)) =~= texts(phone@.take(j as int)).push(
                    phone@[j as int]@,
                ));
                assert(texts(numbers@) =~= start + texts(phone@.take(j + 1)));
                j = j + 1;
            }
            assert(phone@.take(j as int) == phone@);
            assert(entries@.take(i + 1).drop_last() == entries@.take(i as int));
            i = i + 1;
        }
        assert(entries@.take(i as int) == entries@);
        numbers
    }
}

} // verus!
