use who_you_gonna_call::opsgenie::{
    alert_info_from_roster, contacts_request, format_phone_number, get_base_url, on_call_request,
    phone_numbers_from_contacts, AlertInfo, Error, RosterLookup, RosterStep, UserContact,
    UserPhoneNumber,
};
use who_you_gonna_call::{RequestError, Schedule, ScheduleRequestById, ScheduleRequestByName};

const BASE: &str = "https://api.opsgenie.com/v2/";

fn contact(to: &str, method: &str) -> UserContact {
    UserContact { to: to.to_string(), contact_method: method.to_string(), enabled: true }
}

fn entry(name: &str, phone: &[&str]) -> UserPhoneNumber {
    UserPhoneNumber { name: name.to_string(), phone: phone.iter().map(|p| p.to_string()).collect() }
}

fn by_name(name: &str) -> Schedule {
    Schedule::ScheduleByName(ScheduleRequestByName { name: name.to_string() })
}

fn fetched_url(step: &RosterStep) -> String {
    match step {
        RosterStep::Fetch(request) => request.url.clone(),
        other => panic!("expected a fetch, got {:?}", other),
    }
}

#[test]
fn separators_are_removed_and_plus_added() {
    assert_eq!(format_phone_number("49-123-456".to_string()), "+49123456");
    assert_eq!(format_phone_number("4912".to_string()), "+4912");
    assert_eq!(format_phone_number("".to_string()), "+");
    assert_eq!(format_phone_number("---".to_string()), "+");
}

#[test]
fn number_with_plus_keeps_a_single_plus() {
    assert_eq!(format_phone_number("+49-30-1234".to_string()), "+49301234");
    assert_eq!(format_phone_number("-+49".to_string()), "+49");
}

#[test]
fn normalising_twice_is_normalising_once() {
    for raw in ["49-123-456", "+1-2", "", "-", "12 34", "+", "4-+-9"] {
        let once = format_phone_number(raw.to_string());
        let twice = format_phone_number(once.clone());
        assert_eq!(once, twice);
        assert!(once.starts_with('+'));
        assert!(!once.contains('-'));
    }
}

#[test]
fn voice_and_email_contact_give_one_number() {
    let contacts = vec![contact("49-123-456", "voice"), contact("49-123-456", "email")];
    assert_eq!(phone_numbers_from_contacts(&contacts), vec!["+49123456".to_string()]);
}

#[test]
fn phone_numbers_are_sorted_and_unique() {
    let contacts = vec![
        contact("49-3", "sms"),
        contact("49-1", "voice"),
        contact("491", "sms"),
        contact("48", "voice"),
        contact("47", "email"),
        contact("46", "mobile"),
    ];
    assert_eq!(
        phone_numbers_from_contacts(&contacts),
        vec!["+48".to_string(), "+491".to_string(), "+493".to_string()]
    );
    assert!(phone_numbers_from_contacts(&vec![]).is_empty());
}

#[test]
fn on_call_request_by_name_and_by_id() {
    let request = on_call_request(BASE, &by_name("ops")).unwrap();
    assert_eq!(request.url, "https://api.opsgenie.com/v2/schedules/ops/on-calls");
    assert_eq!(
        request.query,
        vec![
            ("flat".to_string(), "true".to_string()),
            ("scheduleIdentifierType".to_string(), "name".to_string())
        ]
    );
    let schedule = Schedule::ScheduleById(ScheduleRequestById { id: "42".to_string() });
    let request = on_call_request(BASE, &schedule).unwrap();
    assert_eq!(request.url, "https://api.opsgenie.com/v2/schedules/42/on-calls");
    assert_eq!(request.query[1].1, "id");
}

#[test]
fn contacts_request_for_a_user() {
    let request = contacts_request(BASE, "alice").unwrap();
    assert_eq!(request.url, "https://api.opsgenie.com/v2/users/alice");
    assert_eq!(request.query, vec![("expand".to_string(), "contact".to_string())]);
}

#[test]
fn request_under_a_url_that_is_no_base_fails() {
    let r = on_call_request("mailto:ops@example.com", &by_name("ops"));
    assert!(matches!(r, Err(Error::BuildUrl { .. })));
}

#[test]
fn empty_recipient_list_means_no_one_on_call() {
    let (mut lookup, step) = RosterLookup::start(BASE.to_string(), &by_name("ops"));
    assert_eq!(fetched_url(&step), "https://api.opsgenie.com/v2/schedules/ops/on-calls");
    let step = lookup.on_call_received(Ok(vec![]));
    match step {
        RosterStep::Done(Err(e)) => {
            assert!(matches!(e, Error::NoOnCallPerson));
            assert_eq!(e.status_code(), 418);
        }
        other => panic!("unexpected step {:?}", other),
    }
}

#[test]
fn single_recipient_is_resolved() {
    let (mut lookup, _) = RosterLookup::start(BASE.to_string(), &by_name("ops"));
    let step = lookup.on_call_received(Ok(vec!["alice".to_string()]));
    assert_eq!(fetched_url(&step), "https://api.opsgenie.com/v2/users/alice");
    let step = lookup.contacts_received(Ok(vec![
        contact("49-123-456", "voice"),
        contact("49-123-456", "email"),
    ]));
    match step {
        RosterStep::Done(Ok(info)) => {
            assert_eq!(
                info,
                AlertInfo {
                    username: "alice".to_string(),
                    phone_number: "+49123456".to_string(),
                    full_information: vec![entry("alice", &["+49123456"])],
                }
            );
        }
        other => panic!("unexpected step {:?}", other),
    }
}

#[test]
fn recipients_are_looked_up_in_order() {
    let (mut lookup, _) = RosterLookup::start(BASE.to_string(), &by_name("ops"));
    let step = lookup.on_call_received(Ok(vec!["bob".to_string(), "carol".to_string()]));
    assert_eq!(fetched_url(&step), "https://api.opsgenie.com/v2/users/bob");
    let step = lookup.contacts_received(Ok(vec![contact("1", "email")]));
    assert_eq!(fetched_url(&step), "https://api.opsgenie.com/v2/users/carol");
    let step = lookup.contacts_received(Ok(vec![contact("2-2", "sms"), contact("1", "voice")]));
    match step {
        RosterStep::Done(Ok(info)) => {
            assert_eq!(info.username, "carol");
            assert_eq!(info.phone_number, "+1");
            assert_eq!(info.full_information, vec![entry("bob", &[]), entry("carol", &["+1", "+22"])]);
            assert_eq!(info.all_phone_numbers(), vec!["+1".to_string(), "+22".to_string()]);
        }
        other => panic!("unexpected step {:?}", other),
    }
}

#[test]
fn recipients_without_numbers_fail_with_the_first_name() {
    let (mut lookup, _) = RosterLookup::start(BASE.to_string(), &by_name("ops"));
    lookup.on_call_received(Ok(vec!["bob".to_string(), "carol".to_string()]));
    lookup.contacts_received(Ok(vec![]));
    let step = lookup.contacts_received(Ok(vec![contact("x@example.com", "email")]));
    match step {
        RosterStep::Done(Err(Error::NoPhoneNumber { username })) => assert_eq!(username, "bob"),
        other => panic!("unexpected step {:?}", other),
    }
}

#[test]
fn roster_answer_picks_the_first_reachable_recipient() {
    let info = alert_info_from_roster(vec![
        entry("a", &[]),
        entry("b", &["+2", "+3"]),
        entry("c", &["+1"]),
    ])
    .unwrap();
    assert_eq!(info.username, "b");
    assert_eq!(info.phone_number, "+2");
    assert_eq!(info.full_information.len(), 3);
    assert_eq!(
        info.all_phone_numbers(),
        vec!["+2".to_string(), "+3".to_string(), "+1".to_string()]
    );
}

#[test]
fn empty_roster_answer_is_no_one_on_call() {
    assert!(matches!(alert_info_from_roster(vec![]), Err(Error::NoOnCallPerson)));
}

#[test]
fn status_codes_of_roster_errors() {
    let no_phone = Error::NoPhoneNumber { username: "a".to_string() };
    assert_eq!(no_phone.status_code(), 418);
    let request_error = RequestError::OpsGenie { source: no_phone };
    assert_eq!(request_error.status_code(), 418);
    let build = on_call_request("mailto:x@example.com", &by_name("x")).unwrap_err();
    assert_eq!(build.status_code(), 500);
}

#[test]
fn opsgenie_base_url_parses() {
    assert_eq!(get_base_url().unwrap(), "https://api.opsgenie.com/v2/");
}
