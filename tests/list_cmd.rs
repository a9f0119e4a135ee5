use reqwest_dav::list_cmd::{
    empty_number, http_time, status_is_ok, ListEntity, ListMultiStatus, ListProp, ListPropStat,
    ListResourceType, ListResponse, Timestamp,
};
use reqwest_dav::{DecodeError, Error};

const CALENDAR: &str = "BEGIN:VCALENDAR
PRODID:-//IDN nextcloud.com//Calendar app 5.3.8//EN
CALSCALE:GREGORIAN
VERSION:2.0
BEGIN:VEVENT
CREATED:20250812T181515Z
DTSTAMP:20250812T181525Z
LAST-MODIFIED:20250812T181525Z
SEQUENCE:2
UID:29a07f82-706a-47eb-9d3b-3836d82851f6
DTSTART;TZID=Europe/Moscow:20250812T220015
DTEND;TZID=Europe/Moscow:20250812T230015
STATUS:CONFIRMED
SUMMARY:Test event
END:VEVENT
BEGIN:VTIMEZONE
TZID:Europe/Moscow
BEGIN:STANDARD
TZOFFSETFROM:+0300
TZOFFSETTO:+0300
TZNAME:MSK
DTSTART:19700101T000000
END:STANDARD
END:VTIMEZONE
END:VCALENDAR";

fn time(text: &str) -> Option<Timestamp> {
    http_time(Some(text.to_string())).unwrap()
}

fn number(text: &str) -> Option<i64> {
    empty_number(Some(text.to_string())).unwrap()
}

fn text(s: &str) -> Option<String> {
    Some(s.to_string())
}

fn empty_prop() -> ListProp {
    ListProp {
        last_modified: None,
        resource_type: ListResourceType::default(),
        quota_used_bytes: None,
        quota_available_bytes: None,
        tag: None,
        content_length: None,
        content_type: None,
        calendar_data: None,
    }
}

fn collection() -> ListResourceType {
    ListResourceType { collection: Some(()), ..ListResourceType::default() }
}

fn block(status: &str, prop: ListProp) -> ListPropStat {
    ListPropStat { status: status.to_string(), prop }
}

fn response(href: &str, blocks: Vec<ListPropStat>) -> ListResponse {
    ListResponse { href: href.to_string(), prop_stat: blocks }
}

/// The properties of the admin folder in the listings below.
fn admin_folder_prop() -> ListProp {
    ListProp {
        last_modified: time("Wed, 10 Apr 2019 14:00:00 GMT"),
        resource_type: collection(),
        tag: text("\"5cafae80b1e3e\""),
        content_type: text("httpd/unix-directory"),
        ..empty_prop()
    }
}

/// The properties of file.txt in the listings below.
fn file_txt_prop() -> ListProp {
    ListProp {
        last_modified: time("Wed, 10 Apr 2019 14:00:00 GMT"),
        tag: text("\"5cafae80b1e3e\""),
        content_type: text("application/text"),
        content_length: number("1234"),
        ..empty_prop()
    }
}

fn redirect_prop(resource_type: ListResourceType) -> ListProp {
    ListProp { resource_type, ..file_txt_prop() }
}

fn listing(responses: Vec<ListResponse>) -> ListMultiStatus {
    ListMultiStatus { responses }
}

#[test]
fn parse_single_prop_stat_folder() {
    let parsed = listing(vec![response(
        "/remote.php/dav/files/admin",
        vec![block("HTTP/1.1 200 OK", admin_folder_prop())],
    )]);
    assert_eq!(parsed.responses.len(), 1);
    let response = parsed.responses[0].clone();
    let list_entity = ListEntity::try_from(response).unwrap();
    match list_entity {
        ListEntity::Folder(folder) => {
            assert_eq!(folder.href, "/remote.php/dav/files/admin");
            assert_eq!(folder.last_modified.timestamp(), 1554904800);
            assert_eq!(folder.quota_used_bytes, None);
            assert_eq!(folder.quota_available_bytes, None);
            assert_eq!(folder.tag, Some("\"5cafae80b1e3e\"".to_string()));
        }
        _ => panic!("expected folder"),
    }
}

#[test]
fn parse_single_prop_stat_file() {
    let parsed = listing(vec![response(
        "/remote.php/dav/files/admin/file.txt",
        vec![block("HTTP/1.1 200 OK", file_txt_prop())],
    )]);
    assert_eq!(parsed.responses.len(), 1);
    let response = parsed.responses[0].clone();
    let list_entity = ListEntity::try_from(response).unwrap();
    match list_entity {
        ListEntity::File(file) => {
            assert_eq!(file.href, "/remote.php/dav/files/admin/file.txt");
            assert_eq!(file.last_modified.timestamp(), 1554904800);
            assert_eq!(file.tag, Some("\"5cafae80b1e3e\"".to_string()));
            assert_eq!(file.content_length, 1234);
            assert_eq!(file.content_type, "application/text");
        }
        _ => panic!("expected folder"),
    }
}

#[test]
fn parse_multi_prop_stat_file() {
    let not_found = ListProp { content_type: None, ..empty_prop() };
    let parsed = listing(vec![response(
        "/remote.php/dav/files/admin/file.txt",
        vec![
            block("HTTP/1.1 200 OK", file_txt_prop()),
            block("HTTP/1.1 404 Not Found", not_found),
        ],
    )]);
    assert_eq!(parsed.responses.len(), 1);
    let response = parsed.responses[0].clone();
    let list_entity = ListEntity::try_from(response).unwrap();
    match list_entity {
        ListEntity::File(file) => {
            assert_eq!(file.href, "/remote.php/dav/files/admin/file.txt");
            assert_eq!(file.last_modified.timestamp(), 1554904800);
            assert_eq!(file.tag, Some("\"5cafae80b1e3e\"".to_string()));
            assert_eq!(file.content_length, 1234);
            assert_eq!(file.content_type, "application/text");
        }
        _ => panic!("expected folder"),
    }
}

#[test]
fn parse_multi_prop_stat_folder() {
    let parsed = listing(vec![response(
        "/remote.php/dav/files/admin",
        vec![
            block("HTTP/1.1 200 OK", admin_folder_prop()),
            block("HTTP/1.1 404 Not Found", empty_prop()),
        ],
    )]);
    assert_eq!(parsed.responses.len(), 1);
    let response = parsed.responses[0].clone();
    let list_entity = ListEntity::try_from(response).unwrap();
    match list_entity {
        ListEntity::Folder(folder) => {
            assert_eq!(folder.href, "/remote.php/dav/files/admin");
            assert_eq!(folder.last_modified.timestamp(), 1554904800);
            assert_eq!(folder.quota_used_bytes, None);
            assert_eq!(folder.quota_available_bytes, None);
            assert_eq!(folder.tag, Some("\"5cafae80b1e3e\"".to_string()));
        }
        _ => panic!("expected folder"),
    }
}

#[test]
fn parse_multi_prop_stat_folder_with_empty_props() {
    let empty_quota = ListProp {
        quota_used_bytes: empty_number(Some(String::new())).unwrap(),
        ..empty_prop()
    };
    let parsed = listing(vec![response(
        "/remote.php/dav/files/admin",
        vec![
            block("HTTP/1.1 200 OK", admin_folder_prop()),
            block("HTTP/1.1 404 Not Found", empty_quota),
        ],
    )]);
    assert_eq!(parsed.responses.len(), 1);
    let response = parsed.responses[0].clone();
    let list_entity = ListEntity::try_from(response).unwrap();
    match list_entity {
        ListEntity::Folder(folder) => {
            assert_eq!(folder.href, "/remote.php/dav/files/admin");
            assert_eq!(folder.last_modified.timestamp(), 1554904800);
            assert_eq!(folder.quota_used_bytes, None);
            assert_eq!(folder.quota_available_bytes, None);
            assert_eq!(folder.tag, Some("\"5cafae80b1e3e\"".to_string()));
        }
        _ => panic!("expected folder"),
    }
}

#[test]
fn parse_single_prop_stat_with_empty_last_modified() {
    let prop = ListProp {
        last_modified: http_time(Some(String::new())).unwrap(),
        ..admin_folder_prop()
    };
    let parsed = listing(vec![response(
        "/remote.php/dav/files/admin",
        vec![block("HTTP/1.1 200 OK", prop)],
    )]);
    assert_eq!(parsed.responses.len(), 1);
    let response = parsed.responses[0].clone();
    assert_eq!(response.prop_stat.get(0).unwrap().prop.last_modified, None);
}

#[test]
fn parse_redirect_ref_unsupported() {
    let resource_type = ListResourceType { redirect_ref: Some(()), ..ListResourceType::default() };
    let parsed = listing(vec![response(
        "/remote.php/dav/files/admin/file.txt",
        vec![block("HTTP/1.1 200 OK", redirect_prop(resource_type))],
    )]);
    assert_eq!(parsed.responses.len(), 1);
    let response = parsed.responses[0].clone();
    let list_entity = ListEntity::try_from(response);
    assert!(list_entity.is_err());
}

#[test]
fn parse_redirect_lifetime_unsupported() {
    let resource_type =
        ListResourceType { redirect_lifetime: Some(()), ..ListResourceType::default() };
    let parsed = listing(vec![response(
        "/remote.php/dav/files/admin/file.txt",
        vec![block("HTTP/1.1 200 OK", redirect_prop(resource_type))],
    )]);
    assert_eq!(parsed.responses.len(), 1);
    let response = parsed.responses[0].clone();
    let list_entity = ListEntity::try_from(response);
    assert!(list_entity.is_err());
}

#[test]
fn parse_carddav() {
    let address_book = ListResourceType {
        collection: Some(()),
        address_book: Some(()),
        ..ListResourceType::default()
    };
    let vcard = ListProp {
        last_modified: time("Sat, 12 Apr 2025 08:55:06 GMT"),
        content_length: number("10525"),
        tag: text("\"9441c12dec6940919f049ef893dad0cd\""),
        content_type: text("text/vcard; charset=utf-8"),
        ..empty_prop()
    };
    let parsed = listing(vec![
        response(
            "/nextcloud/remote.php/dav/addressbooks/users/admin/",
            vec![block("HTTP/1.1 200 OK", ListProp { resource_type: collection(), ..empty_prop() })],
        ),
        response(
            "/nextcloud/remote.php/dav/addressbooks/users/admin/kontakte/",
            vec![block("HTTP/1.1 200 OK", ListProp { resource_type: address_book, ..empty_prop() })],
        ),
        response(
            "/nextcloud/remote.php/dav/addressbooks/users/admin/z-server-generated--system/Database:admin.vcf\n                    ",
            vec![block("HTTP/1.1 200 OK", vcard)],
        ),
    ]);
    assert_eq!(parsed.responses.len(), 3);
    let response = parsed.responses[1].clone();
    let list_entity = ListEntity::try_from(response).unwrap();
    if let ListEntity::Folder(folder) = list_entity {
        assert!(folder.address_book)
    } else {
        panic!("not folder")
    }
}

#[test]
fn parse_calendar_data_prop() {
    let prop = ListProp {
        tag: text("\"df71b3a3de483d6b5bccde1571d77639\""),
        last_modified: time("Tue, 12 Aug 2025 18:15:25 GMT"),
        content_length: number("561"),
        content_type: text("text/calendar; charset=utf-8; component=vevent"),
        calendar_data: text(CALENDAR),
        ..empty_prop()
    };
    let parsed = listing(vec![response(
        "/remote.php/dav/calendars/user/personal/B3EECE08-5E62-407D-BD49-D8DCA03AC866.ics",
        vec![block("HTTP/1.1 200 OK", prop)],
    )]);
    assert_eq!(parsed.responses.len(), 1);
    let response = parsed.responses[0].clone();
    let list_entity = ListEntity::try_from(response.clone()).unwrap();
    match list_entity {
        ListEntity::File(file) => {
            assert_eq!(
                file.href,
                "/remote.php/dav/calendars/user/personal/B3EECE08-5E62-407D-BD49-D8DCA03AC866.ics"
            );
            assert_eq!(file.last_modified.timestamp(), 1755022525);
            assert_eq!(file.tag, Some("\"df71b3a3de483d6b5bccde1571d77639\"".to_string()));
            assert_eq!(file.content_length, 561);
            assert_eq!(file.content_type, "text/calendar; charset=utf-8; component=vevent");
        }
        _ => panic!("expected folder"),
    }
    assert_eq!(response.prop_stat.len(), 1);

    let list_prop_stat = response.prop_stat[0].clone();
    assert_eq!(list_prop_stat.status, "HTTP/1.1 200 OK");

    assert!(list_prop_stat.prop.last_modified.is_some());
    assert_eq!(list_prop_stat.prop.last_modified.unwrap().timestamp(), 1755022525);

    assert!(list_prop_stat.prop.calendar_data.is_some());
    assert_eq!(list_prop_stat.prop.calendar_data.unwrap(), CALENDAR);
}

fn field_of(e: Error) -> (bool, String) {
    match e {
        Error::Decode(DecodeError::FieldNotFound(f)) => (true, f.field),
        Error::Decode(DecodeError::FieldNotSupported(f)) => (false, f.field),
        other => panic!("unexpected error {:?}", other),
    }
}

#[test]
fn folder_comes_from_the_ok_block_only() {
    let not_found = ListProp {
        quota_used_bytes: Some(99),
        tag: text("\"other\""),
        ..empty_prop()
    };
    let r = response(
        "/dav/dir",
        vec![block("HTTP/1.1 404 Not Found", not_found), block("HTTP/1.1 200 OK", admin_folder_prop())],
    );
    match ListEntity::try_from(r).unwrap() {
        ListEntity::Folder(folder) => {
            assert_eq!(folder.quota_used_bytes, None);
            assert_eq!(folder.tag, Some("\"5cafae80b1e3e\"".to_string()));
            assert_eq!(folder.last_modified.timestamp(), 1554904800);
            assert!(!folder.address_book);
        }
        _ => panic!("expected folder"),
    }
}

#[test]
fn first_of_two_ok_blocks_wins() {
    let later = ListProp { tag: text("\"later\""), ..file_txt_prop() };
    let r = response(
        "/f",
        vec![block("HTTP/1.1 207 Multi", file_txt_prop()), block("HTTP/1.1 200 OK", later)],
    );
    match ListEntity::try_from(r).unwrap() {
        ListEntity::File(file) => assert_eq!(file.tag, Some("\"5cafae80b1e3e\"".to_string())),
        _ => panic!("expected file"),
    }
}

#[test]
fn file_without_last_modified_is_missing_field() {
    let prop = ListProp { last_modified: None, ..file_txt_prop() };
    let e = ListEntity::try_from(response("/f", vec![block("HTTP/1.1 200 OK", prop)])).unwrap_err();
    assert_eq!(field_of(e), (true, "last_modified".to_string()));
}

#[test]
fn folder_without_last_modified_is_dated_at_epoch() {
    let prop = ListProp { last_modified: None, ..admin_folder_prop() };
    match ListEntity::try_from(response("/d", vec![block("HTTP/1.1 200 OK", prop)])).unwrap() {
        ListEntity::Folder(folder) => assert_eq!(folder.last_modified.timestamp(), 0),
        _ => panic!("expected folder"),
    }
}

#[test]
fn redirect_wins_over_collection() {
    let resource_type = ListResourceType {
        collection: Some(()),
        redirect_ref: Some(()),
        ..ListResourceType::default()
    };
    let prop = ListProp { resource_type, ..admin_folder_prop() };
    let e = ListEntity::try_from(response("/d", vec![block("HTTP/1.1 200 OK", prop)])).unwrap_err();
    assert_eq!(field_of(e), (false, "redirect_ref".to_string()));
}

#[test]
fn no_ok_block_is_missing_propstat() {
    let r = response(
        "/d",
        vec![block("HTTP/1.1 404 Not Found", admin_folder_prop()), block("HTTP/1.1", admin_folder_prop())],
    );
    let e = ListEntity::try_from(r).unwrap_err();
    assert_eq!(field_of(e), (true, "propstat with valid status".to_string()));
    let e = ListEntity::try_from(response("/d", vec![])).unwrap_err();
    assert_eq!(field_of(e), (true, "propstat with valid status".to_string()));
}

#[test]
fn file_defaults_for_length_and_type() {
    let prop = ListProp { content_length: None, content_type: None, ..file_txt_prop() };
    match ListEntity::try_from(response("/f", vec![block("HTTP/1.1 200 OK", prop)])).unwrap() {
        ListEntity::File(file) => {
            assert_eq!(file.content_length, 0);
            assert_eq!(file.content_type, "");
        }
        _ => panic!("expected file"),
    }
}

#[test]
fn status_line_checks() {
    assert!(status_is_ok("HTTP/1.1 200 OK"));
    assert!(status_is_ok("  HTTP/1.1\t204   No Content"));
    assert!(status_is_ok("HTTP/1.1 2"));
    assert!(!status_is_ok("HTTP/1.1 404 Not Found"));
    assert!(!status_is_ok("200 OK"));
    assert!(!status_is_ok("HTTP/1.1"));
    assert!(!status_is_ok(""));
}

#[test]
fn round_trip_keeps_href_tag_and_time() {
    let r = response("/remote.php/dav/files/admin/file.txt", vec![block("HTTP/1.1 200 OK", file_txt_prop())]);
    let entity = ListEntity::try_from(r).unwrap();
    let back = entity.clone().to_response();
    assert_eq!(back.href, "/remote.php/dav/files/admin/file.txt");
    assert_eq!(back.prop_stat.len(), 1);
    assert_eq!(back.prop_stat[0].prop.tag, Some("\"5cafae80b1e3e\"".to_string()));
    assert_eq!(back.prop_stat[0].prop.last_modified, Some(Timestamp::from_timestamp(1554904800)));
    match ListEntity::try_from(back).unwrap() {
        ListEntity::File(file) => {
            assert_eq!(file.href, "/remote.php/dav/files/admin/file.txt");
            assert_eq!(file.tag, Some("\"5cafae80b1e3e\"".to_string()));
            assert_eq!(file.last_modified.timestamp(), 1554904800);
            assert_eq!(file.content_length, 1234);
        }
        _ => panic!("expected file"),
    }
    let folder = ListEntity::try_from(response("/d", vec![block("HTTP/1.1 200 OK", admin_folder_prop())])).unwrap();
    match ListEntity::try_from(folder.to_response()).unwrap() {
        ListEntity::Folder(f) => {
            assert_eq!(f.href, "/d");
            assert_eq!(f.tag, Some("\"5cafae80b1e3e\"".to_string()));
            assert_eq!(f.last_modified.timestamp(), 1554904800);
        }
        _ => panic!("expected folder"),
    }
}

#[test]
fn http_dates() {
    assert_eq!(time("Wed, 10 Apr 2019 14:00:00 GMT"), Some(Timestamp::from_timestamp(1554904800)));
    assert_eq!(time("Thu, 01 Jan 1970 00:00:00 GMT"), Some(Timestamp::epoch()));
    assert_eq!(http_time(None).unwrap(), None);
    let e = http_time(Some("yesterday".to_string())).unwrap_err();
    assert_eq!(e.value, "yesterday");
}

#[test]
fn numeric_properties() {
    assert_eq!(number("1234"), Some(1234));
    assert_eq!(number("-5"), Some(-5));
    assert_eq!(number("+7"), Some(7));
    assert_eq!(number("9223372036854775807"), Some(i64::MAX));
    assert_eq!(number("-9223372036854775808"), Some(i64::MIN));
    assert_eq!(empty_number(None).unwrap(), None);
    assert_eq!(empty_number(Some(String::new())).unwrap(), None);
    assert_eq!(empty_number(Some("9223372036854775808".to_string())).unwrap_err().value, "9223372036854775808");
    assert_eq!(empty_number(Some("12a".to_string())).unwrap_err().value, "12a");
    assert_eq!(empty_number(Some("-".to_string())).unwrap_err().value, "-");
    assert_eq!(empty_number(Some(" 1".to_string())).unwrap_err().value, " 1");
}

#[test]
fn listing_decodes_in_order_and_stops_at_first_failure() {
    let ok = listing(vec![
        response("/a", vec![block("HTTP/1.1 200 OK", file_txt_prop())]),
        response("/b", vec![block("HTTP/1.1 200 OK", admin_folder_prop())]),
    ]);
    let entities = ok.into_entities().unwrap();
    assert_eq!(entities.len(), 2);
    assert!(matches!(&entities[0], ListEntity::File(f) if f.href == "/a"));
    assert!(matches!(&entities[1], ListEntity::Folder(f) if f.href == "/b"));
    let bad = listing(vec![
        response("/a", vec![block("HTTP/1.1 200 OK", file_txt_prop())]),
        response("/b", vec![block("HTTP/1.1 500 Oops", file_txt_prop())]),
        response("/c", vec![block("HTTP/1.1 200 OK", ListProp { last_modified: None, ..file_txt_prop() })]),
    ]);
    let e = bad.into_entities().unwrap_err();
    assert_eq!(field_of(e), (true, "propstat with valid status".to_string()));
}
