//! What the session reads of a document of the host, and the identity
//! under which it presents the document to the remote endpoint.

use vstd::prelude::*;
use vstd::string::StringExecFns;

verus! {

/// The text of an optional string.
pub open spec fn option_text(text: Option<String>) -> Option<Seq<char>> {
    match text {
        Some(text) => Some(text@),
        None => None,
    }
}

/// A document of the host, as the session reads it at one moment.
#[derive(Clone, Debug, PartialEq, Eq)]
pub struct Buffer {
    /// The identity of the document, which outlives renames and edits.
    pub id: u64,
    /// The host's token for the current content: two equal tokens of one
    /// document stand for the same content.
    pub version: u64,
    pub text: String,
    /// The name of the document's language, where the host knows it.
    pub language: Option<String>,
    /// The address of the local file behind the document, where there is
    /// one: a `file` URI.
    pub file_uri: Option<String>,
}

pub struct BufferView {
    pub id: u64,
    pub version: u64,
    pub text: Seq<char>,
    pub language: Option<Seq<char>>,
    pub file_uri: Option<Seq<char>>,
}

impl View for Buffer {
    type V = BufferView;

    open spec fn view(&self) -> BufferView {
        BufferView {
            id: self.id,
            version: self.version,
            text: self.text@,
            language: option_text(self.language),
            file_uri: option_text(self.file_uri),
        }
    }
}

/// The content of a document at one version of the host.
#[derive(Debug, PartialEq, Eq)]
pub struct BufferSnapshot {
    pub version: u64,
    pub text: String,
}

pub struct BufferSnapshotView {
    pub version: u64,
    pub text: Seq<char>,
}

impl View for BufferSnapshot {
    type V = BufferSnapshotView;

    open spec fn view(&self) -> BufferSnapshotView {
        BufferSnapshotView { version: self.version, text: self.text@ }
    }
}

impl Clone for BufferSnapshot {
    fn clone(&self) -> (copy: Self)
        ensures
            copy == *self,
    {
        BufferSnapshot { version: self.version, text: self.text.clone() }
    }
}

impl Buffer {
    /// The content of the document as it is now.
    pub fn snapshot(&self) -> (snapshot: BufferSnapshot)
        ensures
            snapshot@ == snapshot_of(self@),
    {
        BufferSnapshot { version: self.version, text: self.text.clone() }
    }
}

/// The snapshot that a document gives.
pub open spec fn snapshot_of(buffer: BufferView) -> BufferSnapshotView {
    BufferSnapshotView { version: buffer.version, text: buffer.text }
}

/// The lower-case form of a text, as `str::to_lowercase` computes it.
pub uninterp spec fn lowercase_text(text: Seq<char>) -> Seq<char>;

/// Calls `str::to_lowercase` of the standard library. Its result is taken on
/// trust to depend on the text alone; nothing else is claimed of it.
#[verifier::external_body]
fn to_lowercase(text: &str) -> (lower: String)
    ensures
        lower@ == lowercase_text(text@),
{
    text.to_lowercase()
}

/// The language tag under which a document with the given language name is
/// opened: `plaintext` where the host names no language or names
/// `Plain Text`, else the name in lower case.
pub open spec fn language_id(language: Option<Seq<char>>) -> Seq<char> {
    match language {
        Some(name) => if name == "Plain Text"@ {
            "plaintext"@
        } else {
            lowercase_text(name)
        },
        None => "plaintext"@,
    }
}

pub fn id_for_language(language: &Option<String>) -> (id: String)
    ensures
        id@ == language_id(option_text(*language)),
{
    match language {
        Some(name) => {
            let plain = String::from_str("Plain Text");
            if *name == plain {
                String::from_str("plaintext")
            } else {
                to_lowercase(name.as_str())
            }
        },
        None => String::from_str("plaintext"),
    }
}

/// The decimal digit of a number below ten.
pub open spec fn digit(d: nat) -> char {
    if d == 0 {
        '0'
    } else if d == 1 {
        '1'
    } else if d == 2 {
        '2'
    } else if d == 3 {
        '3'
    } else if d == 4 {
        '4'
    } else if d == 5 {
        '5'
    } else if d == 6 {
        '6'
    } else if d == 7 {
        '7'
    } else if d == 8 {
        '8'
    } else {
        '9'
    }
}

/// A number written in decimal digits, without leading zeros.
pub open spec fn decimal(n: nat) -> Seq<char>
    decreases n,
{
    if n < 10 {
        seq![digit(n)]
    } else {
        decimal(n / 10).push(digit(n % 10))
    }
}

fn digit_str(d: u64) -> (s: &'static str)
    requires
        d < 10,
    ensures
        s@ == seq![digit(d as nat)],
{
    proof {
        reveal_strlit("0");
        reveal_strlit("1");
        reveal_strlit("2");
        reveal_strlit("3");
        reveal_strlit("4");
        reveal_strlit("5");
        reveal_strlit("6");
        reveal_strlit("7");
        reveal_strlit("8");
        reveal_strlit("9");
    }
    let s = if d == 0 {
        "0"
    } else if d == 1 {
        "1"
    } else if d == 2 {
        "2"
    } else if d == 3 {
        "3"
    } else if d == 4 {
        "4"
    } else if d == 5 {
        "5"
    } else if d == 6 {
        "6"
    } else if d == 7 {
        "7"
    } else if d == 8 {
        "8"
    } else {
        "9"
    };
    s
}

/// Appends the decimal digits of `n` to `text`.
fn append_decimal(text: &mut String, n: u64)
    ensures
        final(text)@ == old(text)@ + decimal(n as nat),
    decreases n,
{
    if n >= 10 {
        append_decimal(text, n / 10);
    }
    text.append(digit_str(n % 10));
}

/// The address of a document that has no file: `buffer://` and its identity.
pub open spec fn buffer_address(id: u64) -> Seq<char> {
    "buffer://"@ + decimal(id as nat)
}

/// The serialization of the URL that a text parses to, where it parses to one.
pub uninterp spec fn parsed_uri(text: Seq<char>) -> Option<Seq<char>>;

/// Calls `url::Url::parse` and turns the URL into its serialization. The
/// result is taken on trust to depend on the text alone; nothing is claimed
/// of which texts parse, nor of what the serialization holds.
#[verifier::external_body]
fn parse_uri(text: &str) -> (uri: Option<String>)
    ensures
        option_text(uri) == parsed_uri(text@),
{
    match url::Url::parse(text) {
        Ok(url) => Some(String::from(url)),
        Err(_) => None,
    }
}

/// An address as the URL parser writes it. A text that the parser refuses
/// stands as it is.
pub open spec fn normalized(address: Seq<char>) -> Seq<char> {
    match parsed_uri(address) {
        Some(uri) => uri,
        None => address,
    }
}

/// The URI under which a document is presented: the address of its file,
/// where it has one, else `buffer://` and its identity; either one as the
/// URL parser writes it.
pub open spec fn uri_text(file_uri: Option<Seq<char>>, id: u64) -> Seq<char> {
    match file_uri {
        Some(uri) => normalized(uri),
        None => normalized(buffer_address(id)),
    }
}

pub fn uri_for_buffer(buffer: &Buffer) -> (uri: String)
    ensures
        uri@ == uri_text(buffer@.file_uri, buffer@.id),
{
    let address = match &buffer.file_uri {
        Some(uri) => uri.clone(),
        None => {
            let mut address = String::from_str("buffer://");
            append_decimal(&mut address, buffer.id);
            address
        },
    };
    let parsed = parse_uri(address.as_str());
    uri_or_address(address, parsed)
}

/// Picks what the URL parser wrote for an address, and the address itself
/// where the parser refused it.
pub fn uri_or_address(address: String, parsed: Option<String>) -> (uri: String)
    ensures
        uri@ == match option_text(parsed) {
            Some(uri) => uri,
            None => address@,
        },
{
    match parsed {
        Some(uri) => uri,
        None => address,
    }
}

/// A number below ten has one decimal digit, and a greater one has more.
pub proof fn lemma_decimal_len(n: nat)
    ensures
        n < 10 ==> decimal(n).len() == 1,
        n >= 10 ==> decimal(n).len() >= 2,
    decreases n,
{
    if n >= 10 {
        lemma_decimal_len(n / 10);
    }
}

/// Two numbers with the same decimal digits are the same number.
pub proof fn lemma_decimal_is_one_to_one(a: nat, b: nat)
    requires
        decimal(a) == decimal(b),
    ensures
        a == b,
    decreases a,
{
    lemma_decimal_len(a);
    lemma_decimal_len(b);
    if a >= 10 {
        assert(decimal(a).drop_last() =~= decimal(a / 10));
        assert(decimal(b).drop_last() =~= decimal(b / 10));
        assert(decimal(a).last() == digit(a % 10));
        assert(decimal(b).last() == digit(b % 10));
        lemma_decimal_is_one_to_one(a / 10, b / 10);
    } else {
        assert(decimal(a)[0] == digit(a));
        assert(decimal(b)[0] == digit(b));
    }
}

/// Two documents without a file have two addresses.
pub proof fn law_addresses_differ(first: u64, second: u64)
    ensures
        buffer_address(first) == buffer_address(second) ==> first == second,
{
    let scheme = "buffer://"@;
    if buffer_address(first) == buffer_address(second) {
        assert(buffer_address(first).skip(scheme.len() as int) =~= decimal(first as nat));
        assert(buffer_address(second).skip(scheme.len() as int) =~= decimal(second as nat));
        lemma_decimal_is_one_to_one(first as nat, second as nat);
    }
}

} // verus!
