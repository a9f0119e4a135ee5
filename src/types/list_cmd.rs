//! Records of a PROPFIND (multistatus) response and the entities decoded from them.

use crate::decimal::{decimal_i64, parse_i64};
use crate::types::{Error, InvalidValueError};
use vstd::prelude::*;
use vstd::string::StrSliceExecFns;

verus! {

/// An instant, in whole seconds since 1970-01-01T00:00:00Z.
#[derive(Debug, Clone, Copy, PartialEq, Eq, Structural)]
pub struct Timestamp {
    pub secs: i64,
}

impl Timestamp {
    pub open spec fn epoch_spec() -> Timestamp {
        Timestamp { secs: 0 }
    }

    /// 1970-01-01T00:00:00Z.
    pub fn epoch() -> (t: Timestamp)
        ensures
            t == Timestamp::epoch_spec(),
    {
        Timestamp { secs: 0 }
    }

    pub fn from_timestamp(secs: i64) -> (t: Timestamp)
        ensures
            t.secs == secs,
    {
        Timestamp { secs }
    }

    /// Seconds since the Unix epoch.
    pub fn timestamp(&self) -> (r: i64)
        ensures
            r == self.secs,
    {
        self.secs
    }
}

#[derive(Debug, Clone)]
pub struct ListMultiStatus {
    pub responses: Vec<ListResponse>,
}

/// One resource of a listing, with all the property blocks the server sent for it.
#[derive(Debug, Clone)]
pub struct ListResponse {
    pub href: String,
    pub prop_stat: Vec<ListPropStat>,
}

/// A status line and the properties it applies to.
#[derive(Debug, Clone)]
pub struct ListPropStat {
    pub status: String,
    pub prop: ListProp,
}

/// The markers found inside a resource's `resourcetype` property.
#[derive(Debug, Clone, Default)]
pub struct ListResourceType {
    pub collection: Option<()>,
    pub redirect_ref: Option<()>,
    pub redirect_lifetime: Option<()>,
    pub address_book: Option<()>,
}

/// The properties of one block; any of them may be absent.
#[derive(Debug, Clone)]
pub struct ListProp {
    pub last_modified: Option<Timestamp>,
    pub resource_type: ListResourceType,
    pub quota_used_bytes: Option<i64>,
    pub quota_available_bytes: Option<i64>,
    pub tag: Option<String>,
    pub content_length: Option<i64>,
    pub content_type: Option<String>,
    pub calendar_data: Option<String>,
}

#[derive(Debug, Clone)]
pub enum ListEntity {
    File(ListFile),
    Folder(ListFolder),
}

#[derive(Debug, Clone)]
pub struct ListFile {
    pub href: String,
    pub last_modified: Timestamp,
    pub content_length: i64,
    pub content_type: String,
    pub tag: Option<String>,
}

#[derive(Debug, Clone)]
pub struct ListFolder {
    pub href: String,
    pub last_modified: Timestamp,
    pub quota_used_bytes: Option<i64>,
    pub quota_available_bytes: Option<i64>,
    pub tag: Option<String>,
    pub address_book: bool,
}

pub open spec fn text_of(o: Option<String>) -> Option<Seq<char>> {
    match o {
        Some(s) => Some(s@),
        None => None,
    }
}

pub struct PropView {
    pub last_modified: Option<Timestamp>,
    pub resource_type: ListResourceType,
    pub quota_used_bytes: Option<i64>,
    pub quota_available_bytes: Option<i64>,
    pub tag: Option<Seq<char>>,
    pub content_length: Option<i64>,
    pub content_type: Option<Seq<char>>,
    pub calendar_data: Option<Seq<char>>,
}

pub struct PropStatView {
    pub status: Seq<char>,
    pub prop: PropView,
}

pub struct ResponseView {
    pub href: Seq<char>,
    pub prop_stat: Seq<PropStatView>,
}

pub struct FileView {
    pub href: Seq<char>,
    pub last_modified: Timestamp,
    pub content_length: i64,
    pub content_type: Seq<char>,
    pub tag: Option<Seq<char>>,
}

pub struct FolderView {
    pub href: Seq<char>,
    pub last_modified: Timestamp,
    pub quota_used_bytes: Option<i64>,
    pub quota_available_bytes: Option<i64>,
    pub tag: Option<Seq<char>>,
    pub address_book: bool,
}

pub enum EntityView {
    File(FileView),
    Folder(FolderView),
}

impl View for ListProp {
    type V = PropView;

    open spec fn view(&self) -> PropView {
        PropView {
            last_modified: self.last_modified,
            resource_type: self.resource_type,
            quota_used_bytes: self.quota_used_bytes,
            quota_available_bytes: self.quota_available_bytes,
            tag: text_of(self.tag),
            content_length: self.content_length,
            content_type: text_of(self.content_type),
            calendar_data: text_of(self.calendar_data),
        }
    }
}

pub open spec fn block_views(blocks: Seq<ListPropStat>) -> Seq<PropStatView> {
    blocks.map_values(|b: ListPropStat| b@)
}

pub open spec fn response_views(responses: Seq<ListResponse>) -> Seq<ResponseView> {
    responses.map_values(|r: ListResponse| r@)
}

impl View for ListPropStat {
    type V = PropStatView;

    open spec fn view(&self) -> PropStatView {
        PropStatView { status: self.status@, prop: self.prop@ }
    }
}

impl View for ListResponse {
    type V = ResponseView;

    open spec fn view(&self) -> ResponseView {
        ResponseView {
            href: self.href@,
            prop_stat: block_views(self.prop_stat@),
        }
    }
}

impl View for ListEntity {
    type V = EntityView;

    open spec fn view(&self) -> EntityView {
        match self {
            ListEntity::File(f) => EntityView::File(
                FileView {
                    href: f.href@,
                    last_modified: f.last_modified,
                    content_length: f.content_length,
                    content_type: f.content_type@,
                    tag: text_of(f.tag),
                },
            ),
            ListEntity::Folder(d) => EntityView::Folder(
                FolderView {
                    href: d.href@,
                    last_modified: d.last_modified,
                    quota_used_bytes: d.quota_used_bytes,
                    quota_available_bytes: d.quota_available_bytes,
                    tag: text_of(d.tag),
                    address_book: d.address_book,
                },
            ),
        }
    }
}

/// Why a resource could not be decoded.
pub enum DecodeFailure {
    /// No block has a 2xx status.
    NoValidPropStat,
    /// The authoritative block marks a redirect.
    Redirect,
    /// The authoritative block describes a file without a last-modified time.
    MissingLastModified,
}

/// `e` is the error through which the decoder reports `f`.
pub open spec fn reports(e: Error, f: DecodeFailure) -> bool {
    match f {
        DecodeFailure::NoValidPropStat => e.is_field_not_found("propstat with valid status"@),
        DecodeFailure::Redirect => e.is_field_not_supported("redirect_ref"@),
        DecodeFailure::MissingLastModified => e.is_field_not_found("last_modified"@),
    }
}

/// Unicode White_Space, the set `char::is_whitespace` tests.
pub open spec fn is_whitespace_spec(c: char) -> bool {
    ||| '\t' <= c <= '\r'
    ||| c == ' '
    ||| c == '\u{85}'
    ||| c == '\u{a0}'
    ||| c == '\u{1680}'
    ||| '\u{2000}' <= c <= '\u{200a}'
    ||| c == '\u{2028}'
    ||| c == '\u{2029}'
    ||| c == '\u{202f}'
    ||| c == '\u{205f}'
    ||| c == '\u{3000}'
}

/// A whitespace-separated token of `s` begins at `i`.
pub open spec fn starts_token(s: Seq<char>, i: int) -> bool {
    &&& 0 <= i < s.len()
    &&& !is_whitespace_spec(s[i])
    &&& (i == 0 || is_whitespace_spec(s[i - 1]))
}

/// How many tokens of `s` begin before position `i`.
pub open spec fn tokens_before(s: Seq<char>, i: int) -> nat
    decreases i,
{
    if i <= 0 {
        0
    } else {
        tokens_before(s, i - 1) + if starts_token(s, i - 1) {
            1nat
        } else {
            0nat
        }
    }
}

/// A status line `<protocol> <code> <reason>` whose code, its second token, begins with `2`.
pub open spec fn status_ok(s: Seq<char>) -> bool {
    exists|i: int| #[trigger] starts_token(s, i) && tokens_before(s, i) == 1 && s[i] == '2'
}

/// The first block, from `start` on, whose status is 2xx.
pub open spec fn first_valid_from(blocks: Seq<PropStatView>, start: int) -> Option<int>
    decreases blocks.len() - start,
{
    if start < 0 || start >= blocks.len() {
        None
    } else if status_ok(blocks[start].status) {
        Some(start)
    } else {
        first_valid_from(blocks, start + 1)
    }
}

/// The authoritative block: the first, in input order, whose status is 2xx.
pub open spec fn authoritative(blocks: Seq<PropStatView>) -> Option<int> {
    first_valid_from(blocks, 0)
}

pub open spec fn is_redirect(t: ListResourceType) -> bool {
    t.redirect_ref is Some || t.redirect_lifetime is Some
}

/// The entity that the block `p` describes for the resource at `href`.
pub open spec fn entity_of(href: Seq<char>, p: PropView) -> Result<EntityView, DecodeFailure> {
    if is_redirect(p.resource_type) {
        Err(DecodeFailure::Redirect)
    } else if p.resource_type.collection is Some {
        Ok(
            EntityView::Folder(
                FolderView {
                    href,
                    last_modified: match p.last_modified {
                        Some(t) => t,
                        None => Timestamp::epoch_spec(),
                    },
                    quota_used_bytes: p.quota_used_bytes,
                    quota_available_bytes: p.quota_available_bytes,
                    tag: p.tag,
                    address_book: p.resource_type.address_book is Some,
                },
            ),
        )
    } else {
        match p.last_modified {
            None => Err(DecodeFailure::MissingLastModified),
            Some(t) => Ok(
                EntityView::File(
                    FileView {
                        href,
                        last_modified: t,
                        content_length: match p.content_length {
                            Some(n) => n,
                            None => 0,
                        },
                        content_type: match p.content_type {
                            Some(c) => c,
                            None => Seq::empty(),
                        },
                        tag: p.tag,
                    },
                ),
            ),
        }
    }
}

/// What decoding one resource yields.
pub open spec fn decode(r: ResponseView) -> Result<EntityView, DecodeFailure> {
    match authoritative(r.prop_stat) {
        None => Err(DecodeFailure::NoValidPropStat),
        Some(i) => entity_of(r.href, r.prop_stat[i].prop),
    }
}

/// `r` is what the decoder returns when the model gives `d`.
pub open spec fn decoded_as(r: Result<ListEntity, Error>, d: Result<EntityView, DecodeFailure>) -> bool {
    match r {
        Ok(e) => d == Ok::<EntityView, DecodeFailure>(e@),
        Err(err) => d matches Err(f) && reports(err, f),
    }
}

/// Tells whether `c` is Unicode whitespace.
pub fn is_whitespace(c: char) -> (r: bool)
    ensures
        r == is_whitespace_spec(c),
{
    ('\t' <= c && c <= '\r') || c == ' ' || c == '\u{85}' || c == '\u{a0}' || c == '\u{1680}' || (
    '\u{2000}' <= c && c <= '\u{200a}') || c == '\u{2028}' || c == '\u{2029}' || c == '\u{202f}'
        || c == '\u{205f}' || c == '\u{3000}'
}

proof fn lemma_tokens_before_monotone(s: Seq<char>, a: int, b: int)
    requires
        a <= b,
    ensures
        tokens_before(s, a) <= tokens_before(s, b),
    decreases b - a,
{
    if a < b {
        lemma_tokens_before_monotone(s, a, b - 1);
    }
}

/// Tells whether a status line reports success: its second whitespace-separated
/// token, the status code, begins with `2`.
pub fn status_is_ok(status: &str) -> (r: bool)
    ensures
        r == status_ok(status@),
{
    let ghost s = status@;
    let n = status.unicode_len();
    let mut i: usize = 0;
    let mut count: usize = 0;
    let mut after_space = true;
    while i < n
        invariant
            n == s.len(),
            s == status@,
            i <= n,
            count == tokens_before(s, i as int),
            count <= 1,
            after_space == (i == 0 || is_whitespace_spec(s[i - 1])),
            forall|j: int| 0 <= j < i ==> !(#[trigger] starts_token(s, j) && tokens_before(s, j) == 1),
        decreases n - i,
    {
        let c = status.get_char(i);
        let space = is_whitespace(c);
        if !space && after_space {
            assert(starts_token(s, i as int));
            if count == 1 {
                proof {
                    if c != '2' {
                        assert forall|k: int| #[trigger]
                            starts_token(s, k) && tokens_before(s, k) == 1 implies s[k] != '2' by {
                            if k > i {
                                lemma_tokens_before_monotone(s, i + 1, k);
                                assert(tokens_before(s, i + 1) == 2);
                            }
                        }
                    }
                }
                return c == '2';
            }
            count = count + 1;
        }
        proof {
            assert(tokens_before(s, i + 1) == tokens_before(s, i as int) + if starts_token(s, i as int) {
                1nat
            } else {
                0nat
            });
        }
        after_space = space;
        i = i + 1;
    }
    false
}

impl ListEntity {
    /// Decodes one resource. The authoritative block is the first whose status is 2xx; a
    /// redirect there is refused; a collection becomes a `Folder` (dated at the epoch when the
    /// block has no last-modified time); anything else becomes a `File`, which must have one.
    pub fn try_from(response: ListResponse) -> (r: Result<ListEntity, Error>)
        ensures
            decoded_as(r, decode(response@)),
    {
        let ghost view = response@;
        let ListResponse { href, prop_stat } = response;
        let mut blocks = prop_stat;
        let mut i: usize = 0;
        let mut found = false;
        while !found && i < blocks.len()
            invariant
                i <= blocks@.len(),
                view.prop_stat == block_views(blocks@),
                view.href == href@,
                found ==> i < blocks@.len() && status_ok(view.prop_stat[i as int].status),
                authoritative(view.prop_stat) == first_valid_from(view.prop_stat, i as int),
            decreases blocks@.len() - i + if found { 0int } else { 1int },
        {
            if status_is_ok(blocks[i].status.as_str()) {
                found = true;
            } else {
                i = i + 1;
            }
        }
        if !found {
            return Err(Error::field_not_found("propstat with valid status"));
        }
        let block = blocks.remove(i);
        assert(block@ == view.prop_stat[i as int]);
        let ListProp {
            last_modified,
            resource_type,
            quota_used_bytes,
            quota_available_bytes,
            tag,
            content_length,
            content_type,
            calendar_data: _,
        } = block.prop;
        if resource_type.redirect_ref.is_some() || resource_type.redirect_lifetime.is_some() {
            return Err(Error::field_not_supported("redirect_ref"));
        }
        if resource_type.collection.is_some() {
            let last_modified = match last_modified {
                Some(t) => t,
                None => Timestamp::epoch(),
            };
            return Ok(
                ListEntity::Folder(
                    ListFolder {
                        href,
                        last_modified,
                        quota_used_bytes,
                        quota_available_bytes,
                        tag,
                        address_book: resource_type.address_book.is_some(),
                    },
                ),
            );
        }
        match last_modified {
            None => Err(Error::field_not_found("last_modified")),
            Some(t) => {
                let content_length = match content_length {
                    Some(n) => n,
                    None => 0,
                };
                let content_type = match content_type {
                    Some(c) => c,
                    None => String::new(),
                };
                Ok(ListEntity::File(ListFile { href, last_modified: t, content_length, content_type, tag }))
            },
        }
    }

    /// Encodes the entity back as a resource with one `HTTP/1.1 200 OK` block that carries
    /// its properties.
    pub fn to_response(self) -> (r: ListResponse)
        ensures
            r@ == encode(self@),
    {
        let (href, prop) = match self {
            ListEntity::File(f) => (
                f.href,
                ListProp {
                    last_modified: Some(f.last_modified),
                    resource_type: ListResourceType {
                        collection: None,
                        redirect_ref: None,
                        redirect_lifetime: None,
                        address_book: None,
                    },
                    quota_used_bytes: None,
                    quota_available_bytes: None,
                    tag: f.tag,
                    content_length: Some(f.content_length),
                    content_type: Some(f.content_type),
                    calendar_data: None,
                },
            ),
            ListEntity::Folder(d) => (
                d.href,
                ListProp {
                    last_modified: Some(d.last_modified),
                    resource_type: ListResourceType {
                        collection: Some(()),
                        redirect_ref: None,
                        redirect_lifetime: None,
                        address_book: if d.address_book {
                            Some(())
                        } else {
                            None
                        },
                    },
                    quota_used_bytes: d.quota_used_bytes,
                    quota_available_bytes: d.quota_available_bytes,
                    tag: d.tag,
                    content_length: None,
                    content_type: None,
                    calendar_data: None,
                },
            ),
        };
        let block = ListPropStat { status: "HTTP/1.1 200 OK".to_owned(), prop };
        let prop_stat = vec![block];
        let r = ListResponse { href, prop_stat };
        assert(block_views(r.prop_stat@) =~= seq![block@]);
        r
    }
}

/// The resource `encode` writes for an entity: one block, status `HTTP/1.1 200 OK`.
pub open spec fn encode(e: EntityView) -> ResponseView {
    match e {
        EntityView::File(f) => ResponseView {
            href: f.href,
            prop_stat: seq![
                PropStatView {
                    status: "HTTP/1.1 200 OK"@,
                    prop: PropView {
                        last_modified: Some(f.last_modified),
                        resource_type: ListResourceType {
                            collection: None,
                            redirect_ref: None,
                            redirect_lifetime: None,
                            address_book: None,
                        },
                        quota_used_bytes: None,
                        quota_available_bytes: None,
                        tag: f.tag,
                        content_length: Some(f.content_length),
                        content_type: Some(f.content_type),
                        calendar_data: None,
                    },
                },
            ],
        },
        EntityView::Folder(d) => ResponseView {
            href: d.href,
            prop_stat: seq![
                PropStatView {
                    status: "HTTP/1.1 200 OK"@,
                    prop: PropView {
                        last_modified: Some(d.last_modified),
                        resource_type: ListResourceType {
                            collection: Some(()),
                            redirect_ref: None,
                            redirect_lifetime: None,
                            address_book: if d.address_book {
                                Some(())
                            } else {
                                None
                            },
                        },
                        quota_used_bytes: d.quota_used_bytes,
                        quota_available_bytes: d.quota_available_bytes,
                        tag: d.tag,
                        content_length: None,
                        content_type: None,
                        calendar_data: None,
                    },
                },
            ],
        },
    }
}

proof fn lemma_ok_status_line()
    ensures
        status_ok("HTTP/1.1 200 OK"@),
{
    let s = "HTTP/1.1 200 OK"@;
    reveal_strlit("HTTP/1.1 200 OK");
    assert(starts_token(s, 0));
    assert(tokens_before(s, 0) == 0);
    assert(tokens_before(s, 1) == 1);
    assert(tokens_before(s, 2) == 1);
    assert(tokens_before(s, 3) == 1);
    assert(tokens_before(s, 4) == 1);
    assert(tokens_before(s, 5) == 1);
    assert(tokens_before(s, 6) == 1);
    assert(tokens_before(s, 7) == 1);
    assert(tokens_before(s, 8) == 1);
    assert(tokens_before(s, 9) == 1);
    assert(starts_token(s, 9));
}

/// An entity encoded as a resource decodes to itself.
pub proof fn lemma_encode_then_decode(e: EntityView)
    ensures
        decode(encode(e)) == Ok::<EntityView, DecodeFailure>(e),
{
    lemma_ok_status_line();
    let r = encode(e);
    assert(first_valid_from(r.prop_stat, 0) == Some(0int));
}

/// Decoding a resource and encoding the entity again keeps its href, its tag and the
/// last-modified time of its authoritative block (where the block has one), and the
/// re-encoded resource decodes to the same entity.
pub proof fn lemma_round_trip(r: ResponseView)
    requires
        decode(r) is Ok,
    ensures
        ({
            let i = authoritative(r.prop_stat)->0;
            let back = encode(decode(r)->Ok_0);
            &&& back.href == r.href
            &&& back.prop_stat.len() == 1
            &&& back.prop_stat[0].prop.tag == r.prop_stat[i].prop.tag
            &&& r.prop_stat[i].prop.last_modified is Some ==> back.prop_stat[0].prop.last_modified
                == r.prop_stat[i].prop.last_modified
            &&& decode(back) == decode(r)
        }),
{
    lemma_encode_then_decode(decode(r)->Ok_0);
}

/// A resource whose authoritative block marks a redirect is refused as unsupported,
/// whatever else that block holds.
pub proof fn lemma_redirect_refused(r: ResponseView)
    requires
        authoritative(r.prop_stat) matches Some(i) && is_redirect(r.prop_stat[i].prop.resource_type),
    ensures
        decode(r) == Err::<EntityView, DecodeFailure>(DecodeFailure::Redirect),
{
}

/// What a property value that may be empty reads as: absent or empty is `None`; anything
/// else must parse, or the text itself is reported.
pub open spec fn optional_value<T>(value: Option<Seq<char>>, parsed: spec_fn(Seq<char>) -> Option<T>) -> Result<Option<T>, Seq<char>> {
    match value {
        None => Ok(None),
        Some(v) => if v.len() == 0 {
            Ok(None)
        } else {
            match parsed(v) {
                Some(x) => Ok(Some(x)),
                None => Err(v),
            }
        },
    }
}

pub open spec fn value_outcome<T>(r: Result<Option<T>, InvalidValueError>) -> Result<Option<T>, Seq<char>> {
    match r {
        Ok(x) => Ok(x),
        Err(e) => Err(e.value@),
    }
}

/// The instant an HTTP-date text names, in seconds since the Unix epoch; `None` where the
/// text is no HTTP-date.
pub uninterp spec fn http_date_seconds(text: Seq<char>) -> Option<i64>;

pub open spec fn http_date_timestamp(text: Seq<char>) -> Option<Timestamp> {
    match http_date_seconds(text) {
        Some(secs) => Some(Timestamp { secs }),
        None => None,
    }
}

/// Relies on httpdate::parse_http_date, which reads the HTTP-date forms of RFC 9110
/// (IMF-fixdate, RFC 850, asctime) and fails on any other text; the instant becomes whole
/// seconds since the Unix epoch through chrono's `DateTime<Utc>`.
#[verifier::external_body]
fn parse_http_date(text: &str) -> (r: Option<i64>)
    ensures
        r == http_date_seconds(text@),
{
    match httpdate::parse_http_date(text) {
        Ok(time) => Some(chrono::DateTime::<chrono::Utc>::from(time).timestamp()),
        Err(_) => None,
    }
}

/// Reads a last-modified property: absent or empty is `None`, anything else must be an
/// HTTP-date.
pub fn http_time(value: Option<String>) -> (r: Result<Option<Timestamp>, InvalidValueError>)
    ensures
        value_outcome(r) == optional_value(text_of(value), |t: Seq<char>| http_date_timestamp(t)),
{
    match value {
        None => Ok(None),
        Some(v) => {
            if v.as_str().unicode_len() == 0 {
                Ok(None)
            } else {
                match parse_http_date(v.as_str()) {
                    Some(secs) => Ok(Some(Timestamp { secs })),
                    None => Err(InvalidValueError { value: v }),
                }
            }
        },
    }
}

/// Reads a numeric property: absent or empty is `None`, anything else must be a decimal `i64`.
pub fn empty_number(value: Option<String>) -> (r: Result<Option<i64>, InvalidValueError>)
    ensures
        value_outcome(r) == optional_value(text_of(value), |t: Seq<char>| decimal_i64(t)),
{
    match value {
        None => Ok(None),
        Some(v) => {
            if v.as_str().unicode_len() == 0 {
                Ok(None)
            } else {
                match parse_i64(v.as_str()) {
                    Some(n) => Ok(Some(n)),
                    None => Err(InvalidValueError { value: v }),
                }
            }
        },
    }
}

/// `r` is what decoding the resources `rs` in order gives: every entity, or the error for
/// the first resource that fails.
pub open spec fn decoded_all(rs: Seq<ResponseView>, r: Result<Vec<ListEntity>, Error>) -> bool {
    match r {
        Ok(v) => v@.len() == rs.len() && forall|i: int|
            0 <= i < rs.len() ==> decode(#[trigger] rs[i]) == Ok::<EntityView, DecodeFailure>(v@[i]@),
        Err(e) => exists|k: int|
            #![trigger rs[k]]
            {
                &&& 0 <= k < rs.len()
                &&& forall|j: int| 0 <= j < k ==> (#[trigger] decode(rs[j])) is Ok
                &&& decode(rs[k]) matches Err(f) && reports(e, f)
            },
    }
}

impl ListMultiStatus {
    /// Decodes every resource of the listing, keeping their order; the first resource that
    /// fails to decode ends it with that error.
    pub fn into_entities(self) -> (r: Result<Vec<ListEntity>, Error>)
        ensures
            decoded_all(response_views(self.responses@), r),
    {
        let ghost rs = response_views(self.responses@);
        let mut rest = self.responses;
        let mut out: Vec<ListEntity> = Vec::new();
        while rest.len() > 0
            invariant
                rs == response_views(self.responses@),
                out@.len() + rest@.len() == rs.len(),
                response_views(rest@) == rs.subrange(out@.len() as int, rs.len() as int),
                forall|i: int|
                    0 <= i < out@.len() ==> decode(#[trigger] rs[i]) == Ok::<EntityView, DecodeFailure>(out@[i]@),
            decreases rest@.len(),
        {
            let ghost before = rest@;
            let item = rest.remove(0);
            let ghost at = out@.len() as int;
            assert(response_views(before)[0] == rs[at]);
            assert(item@ == rs[at]);
            assert forall|j: int| 0 <= j < rest@.len() implies #[trigger] response_views(rest@)[j]
                == rs[at + 1 + j] by {
                assert(rest@[j] == before[j + 1]);
                assert(response_views(before)[j + 1] == rs[at + 1 + j]);
            }
            assert(response_views(rest@) =~= rs.subrange(at + 1, rs.len() as int));
            match ListEntity::try_from(item) {
                Ok(e) => {
                    out.push(e);
                },
                Err(err) => {
                    let ghost k = out@.len() as int;
                    assert(forall|j: int| 0 <= j < k ==> (#[trigger] decode(rs[j])) is Ok);
                    assert(decode(rs[k]) is Err && reports(err, decode(rs[k])->Err_0));
                    return Err(err);
                    return Err(err);
                },
            }
        }
        Ok(out)
    }
}

} // verus!
