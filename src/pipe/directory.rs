use crate::protocol::response::{Response, ResponseView, StatusCode};
use crate::pipe::router::{join, join_path};
use vstd::prelude::*;
use vstd::slice::slice_to_vec;
use vstd::utf8::encode_utf8;

verus! {

/// The file whose presence opens a directory to listing; its bytes head the listing.
pub const LIST_FILE: &'static str = ".listfiles";

/// The content type of a listing.
pub const LISTING_MIME: &'static str = "text/gemini";

/// One entry of a directory: its name and whether it is a directory.
#[derive(Clone, Debug, PartialEq, Eq)]
pub struct DirEntry {
    pub name: String,
    pub is_dir: bool,
}

/// The bytes that stand for themselves in a link: ASCII letters and digits,
/// `-`, `.`, `_` and `~`.
pub open spec fn is_unreserved(b: u8) -> bool {
    (48u8 <= b <= 57u8) || (65u8 <= b <= 90u8) || (97u8 <= b <= 122u8) || b == 45u8 || b == 46u8
        || b == 95u8 || b == 126u8
}

/// An upper-case hexadecimal digit.
pub open spec fn hex_digit(d: u8) -> char {
    if d < 10 {
        ((48 + d) as u8) as char
    } else {
        ((55 + d) as u8) as char
    }
}

/// A byte as it stands in a link: itself, or `%` and two hexadecimal digits.
pub open spec fn escaped_byte(b: u8) -> Seq<char> {
    if is_unreserved(b) {
        seq![b as char]
    } else {
        seq!['%', hex_digit(b / 16), hex_digit(b % 16)]
    }
}

pub open spec fn percent_encoded(b: Seq<u8>) -> Seq<char>
    decreases b.len(),
{
    if b.len() == 0 {
        Seq::empty()
    } else {
        percent_encoded(b.drop_last()) + escaped_byte(b.last())
    }
}

/// The percent-encoding of a name's UTF-8 bytes, for use in a link.
pub open spec fn url_encoded(s: Seq<char>) -> Seq<char> {
    percent_encoded(encode_utf8(s))
}

/// Relies on `urlencoding::encode`: every UTF-8 byte of the name but ASCII
/// letters, digits and `-._~` becomes `%` and two upper-case hex digits.
#[verifier::external_body]
fn encode_name(name: &str) -> (r: String)
    ensures
        r@ == url_encoded(name@),
{
    urlencoding::encode(name).into_owned()
}

/// The link line of one entry; a directory's name is marked with `/` in the
/// link and with angle brackets in the text.
pub open spec fn entry_line(locator: Seq<char>, e: DirEntry) -> Seq<char> {
    if e.is_dir {
        "=> "@ + locator + url_encoded(e.name@) + "/ <"@ + e.name@ + ">\r\n"@
    } else {
        "=> "@ + locator + url_encoded(e.name@) + " "@ + e.name@ + "\r\n"@
    }
}

/// The link lines of the entries, in their order, leaving out the list file.
pub open spec fn listing_text(locator: Seq<char>, entries: Seq<DirEntry>) -> Seq<char>
    decreases entries.len(),
{
    if entries.len() == 0 {
        Seq::empty()
    } else {
        listing_text(locator, entries.drop_last()) + if entries.last().name@ == LIST_FILE@ {
            Seq::empty()
        } else {
            entry_line(locator, entries.last())
        }
    }
}

/// A listing's bytes: the header, CRLF, then the link lines.
pub open spec fn listing_content(header: Seq<u8>, locator: Seq<char>, entries: Seq<DirEntry>) -> Seq<u8> {
    header + seq![13u8, 10u8] + encode_utf8(listing_text(locator, entries))
}

/// The locator of a file inside a directory locator.
pub fn index_locator(locator: &String, file: &str) -> (r: String)
    ensures
        r@ == locator@ + file@,
{
    let mut r = locator.clone();
    r.append(file);
    r
}

/// The list file of a directory.
pub fn list_file_path(dir: &String) -> (r: String)
    ensures
        r@ == join_path(dir@, LIST_FILE@),
{
    join(dir.as_str(), LIST_FILE)
}

fn push_entry_line(text: &mut String, locator: &String, e: &DirEntry)
    ensures
        final(text)@ == old(text)@ + entry_line(locator@, *e),
{
    let encoded = encode_name(e.name.as_str());
    text.append("=> ");
    text.append(locator.as_str());
    text.append(encoded.as_str());
    if e.is_dir {
        text.append("/ <");
        text.append(e.name.as_str());
        text.append(">\r\n");
    } else {
        text.append(" ");
        text.append(e.name.as_str());
        text.append("\r\n");
    }
    assert(final(text)@ =~= old(text)@ + entry_line(locator@, *e));
}

/// The listing of a directory: its header, CRLF, and a link line for each
/// entry but the list file.
pub fn listing_response(locator: &String, header: Vec<u8>, entries: &Vec<DirEntry>) -> (r: Response)
    ensures
        r@ == (ResponseView {
            status_code: StatusCode::Success,
            status_line: LISTING_MIME@,
            content: Some(listing_content(header@, locator@, entries@)),
        }),
{
    let list_file = String::from_str(LIST_FILE);
    let mut text = String::new();
    let mut i: usize = 0;
    while i < entries.len()
        invariant
            i <= entries@.len(),
            list_file@ == LIST_FILE@,
            text@ == listing_text(locator@, entries@.take(i as int)),
        decreases entries@.len() - i,
    {
        let e = &entries[i];
        assert(entries@.take(i + 1).drop_last() =~= entries@.take(i as int));
        if e.name != list_file {
            push_entry_line(&mut text, locator, e);
        }
        i = i + 1;
    }
    assert(entries@.take(entries@.len() as int) =~= entries@);
    let mut content = header;
    content.push(13u8);
    content.push(10u8);
    let mut lines = slice_to_vec(text.as_str().as_bytes());
    content.append(&mut lines);
    let r = Response::new_success(String::from_str(LISTING_MIME), content);
    assert(r@.content == Some(listing_content(header@, locator@, entries@)));
    r
}

/// The listing of entries enumerated in two runs is the listing of the first
/// run followed by that of the second: the enumeration order is kept.
pub proof fn lemma_listing_concat(locator: Seq<char>, x: Seq<DirEntry>, y: Seq<DirEntry>)
    ensures
        listing_text(locator, x + y) == listing_text(locator, x) + listing_text(locator, y),
    decreases y.len(),
{
    if y.len() == 0 {
        assert(x + y =~= x);
        assert(listing_text(locator, y) =~= Seq::<char>::empty());
        assert(listing_text(locator, x) + Seq::<char>::empty() =~= listing_text(locator, x));
    } else {
        lemma_listing_concat(locator, x, y.drop_last());
        assert((x + y).drop_last() =~= x + y.drop_last());
        assert((x + y).last() == y.last());
        let tail = if y.last().name@ == LIST_FILE@ {
            Seq::<char>::empty()
        } else {
            entry_line(locator, y.last())
        };
        assert(listing_text(locator, x + y) == listing_text(locator, x + y.drop_last()) + tail);
        assert(listing_text(locator, y) == listing_text(locator, y.drop_last()) + tail);
        assert(listing_text(locator, x) + listing_text(locator, y.drop_last()) + tail
            =~= listing_text(locator, x) + (listing_text(locator, y.drop_last()) + tail));
    }
}

/// A directory's listing has one link line for each entry, in the order of
/// enumeration, and none for the list file wherever it comes.
pub proof fn lemma_listing_skips_list_file(
    locator: Seq<char>,
    before: Seq<DirEntry>,
    list_file: DirEntry,
    after: Seq<DirEntry>,
)
    requires
        list_file.name@ == LIST_FILE@,
    ensures
        listing_text(locator, before + seq![list_file] + after) == listing_text(
            locator,
            before,
        ) + listing_text(locator, after),
        listing_text(locator, seq![list_file]) == Seq::<char>::empty(),
{
    let one = seq![list_file];
    assert(one.drop_last() =~= Seq::<DirEntry>::empty());
    assert(listing_text(locator, Seq::<DirEntry>::empty()) == Seq::<char>::empty());
    assert(one.last() == list_file);
    assert(listing_text(locator, one) == listing_text(locator, one.drop_last()) + Seq::<char>::empty());
    assert(listing_text(locator, one) =~= Seq::<char>::empty());
    lemma_listing_concat(locator, before + one, after);
    lemma_listing_concat(locator, before, one);
    assert(listing_text(locator, before) + Seq::<char>::empty() =~= listing_text(locator, before));
}

/// One entry that is not the list file gives exactly its link line.
pub proof fn lemma_listing_one_entry(locator: Seq<char>, e: DirEntry)
    requires
        e.name@ != LIST_FILE@,
    ensures
        listing_text(locator, seq![e]) == entry_line(locator, e),
{
    let one = seq![e];
    assert(one.drop_last() =~= Seq::<DirEntry>::empty());
    assert(listing_text(locator, Seq::<DirEntry>::empty()) == Seq::<char>::empty());
    assert(one.last() == e);
    assert(listing_text(locator, one) == listing_text(locator, one.drop_last()) + entry_line(
        locator,
        e,
    ));
    assert(Seq::<char>::empty() + entry_line(locator, e) =~= entry_line(locator, e));
}

} // verus!
