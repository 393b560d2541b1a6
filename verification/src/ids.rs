//! Identifiers of actors, objects and activities.
//!
//! Every identifier in the exchange protocol is a dereferenceable absolute
//! URL.  The engine's checks read two things of such an identifier: its full
//! text (exact identity) and its host component (which instance it lives
//! on).  `Uri` keeps both side by side as plain strings so that every
//! contract can speak of them directly; the host is extracted once, at
//! construction, by the `url` crate.

use vstd::prelude::*;
use vstd::string::StringExecFns;
use crate::envelope::OpKind;

verus! {

/// The host component that URL parsing assigns to a string: `Some` exactly
/// when the string parses as an absolute URL that has a host.
pub uninterp spec fn url_host(s: Seq<char>) -> Option<Seq<char>>;

/// Relies on `url::Url::parse` and `url::Url::host_str`: whether a string
/// parses as an absolute URL, and which host it then carries, depend on the
/// string alone.
#[verifier::external_body]
fn parse_url_host(s: &str) -> (r: Option<String>)
    ensures
        r.deep_view() == url_host(s@),
{
    match url::Url::parse(s) {
        Ok(u) => u.host_str().map(|h| h.to_string()),
        Err(_) => None,
    }
}

/// A protocol identifier: the full URL text together with its host
/// component.
#[derive(Debug)]
pub struct Uri {
    pub text: String,
    pub host: String,
}

/// Mathematical image of a `Uri`.
pub ghost struct UriModel {
    pub text: Seq<char>,
    pub host: Seq<char>,
}

impl View for Uri {
    type V = UriModel;

    open spec fn view(&self) -> UriModel {
        UriModel { text: self.text@, host: self.host@ }
    }
}

impl DeepView for Uri {
    type V = UriModel;

    open spec fn deep_view(&self) -> UriModel {
        self@
    }
}

impl Uri {
    /// A well-formed identifier carries exactly the host that URL parsing
    /// assigns to its text.
    pub open spec fn wf(self) -> bool {
        url_host(self.text@) == Some(self.host@)
    }

    /// Parses an identifier; succeeds exactly when the text is an absolute
    /// URL with a host, and then records that host beside the text.
    pub fn parse(s: &str) -> (r: Option<Uri>)
        ensures
            match r {
                Some(u) => u@.text == s@ && Some(u@.host) == url_host(s@) && u.wf(),
                None => url_host(s@) is None,
            },
    {
        match parse_url_host(s) {
            Some(h) => Some(Uri { text: s.to_owned(), host: h }),
            None => None,
        }
    }

    /// Exact identifier equality: the full texts match.
    pub fn same_id(&self, other: &Uri) -> (r: bool)
        ensures
            r == (self@.text == other@.text),
    {
        self.text == other.text
    }

    /// Same-instance test: the host components match.
    pub fn same_host(&self, other: &Uri) -> (r: bool)
        ensures
            r == (self@.host == other@.host),
    {
        self.host == other.host
    }
}

impl Clone for Uri {
    fn clone(&self) -> (r: Uri)
        ensures
            r@ == self@,
            self.wf() ==> r.wf(),
    {
        Uri { text: self.text.clone(), host: self.host.clone() }
    }
}

/// The character for one decimal digit.
pub open spec fn digit_char(d: nat) -> char {
    if d == 0 {
        '0'
    } else if d == 1 {
        '1'
    } else if d == 2 {
        '2'
    } else if d == 3 {
        '3'
    } else if d == 4 {
        '4'
    } else if d == 5 {
        '5'
    } else if d == 6 {
        '6'
    } else if d == 7 {
        '7'
    } else if d == 8 {
        '8'
    } else {
        '9'
    }
}

/// Decimal rendering of a number, most significant digit first.
pub open spec fn dec_seq(n: nat) -> Seq<char>
    decreases n,
{
    if n < 10 {
        seq![digit_char(n)]
    } else {
        dec_seq(n / 10).push(digit_char(n % 10))
    }
}

proof fn lemma_digit_char_injective(x: nat, y: nat)
    requires
        x < 10,
        y < 10,
        digit_char(x) == digit_char(y),
    ensures
        x == y,
{
}

proof fn lemma_dec_seq_len(n: nat)
    ensures
        dec_seq(n).len() >= 1,
        n >= 10 ==> dec_seq(n).len() >= 2,
    decreases n,
{
    if n >= 10 {
        lemma_dec_seq_len(n / 10);
    }
}

/// Decimal rendering is injective: distinct numbers render as distinct
/// character sequences.
pub proof fn lemma_dec_seq_injective(a: nat, b: nat)
    requires
        dec_seq(a) == dec_seq(b),
    ensures
        a == b,
    decreases a,
{
    if a < 10 && b < 10 {
        assert(dec_seq(a)[0] == digit_char(a));
        assert(dec_seq(b)[0] == digit_char(b));
        lemma_digit_char_injective(a, b);
    } else if a < 10 || b < 10 {
        lemma_dec_seq_len(a);
        lemma_dec_seq_len(b);
        assert(false);
    } else {
        assert(dec_seq(a).last() == digit_char(a % 10));
        assert(dec_seq(b).last() == digit_char(b % 10));
        lemma_digit_char_injective(a % 10, b % 10);
        assert(dec_seq(a).drop_last() =~= dec_seq(a / 10));
        assert(dec_seq(b).drop_last() =~= dec_seq(b / 10));
        lemma_dec_seq_injective(a / 10, b / 10);
        vstd::arithmetic::div_mod::lemma_fundamental_div_mod(a as int, 10);
        vstd::arithmetic::div_mod::lemma_fundamental_div_mod(b as int, 10);
    }
}

/// Appends one decimal digit.
fn push_digit(s: &mut String, d: u64)
    requires
        d < 10,
    ensures
        final(s)@ == old(s)@.push(digit_char(d as nat)),
{
    let c: &str = match d {
        0 => "0",
        1 => "1",
        2 => "2",
        3 => "3",
        4 => "4",
        5 => "5",
        6 => "6",
        7 => "7",
        8 => "8",
        _ => "9",
    };
    proof {
        reveal_strlit("0");
        reveal_strlit("1");
        reveal_strlit("2");
        reveal_strlit("3");
        reveal_strlit("4");
        reveal_strlit("5");
        reveal_strlit("6");
        reveal_strlit("7");
        reveal_strlit("8");
        reveal_strlit("9");
    }
    s.append(c);
    proof {
        assert(s@ =~= old(s)@.push(digit_char(d as nat)));
    }
}

/// Appends the decimal rendering of `n`.
fn append_dec(s: &mut String, n: u64)
    ensures
        final(s)@ == old(s)@ + dec_seq(n as nat),
    decreases n,
{
    if n >= 10 {
        append_dec(s, n / 10);
    }
    push_digit(s, n % 10);
    proof {
        assert(s@ =~= old(s)@ + dec_seq(n as nat));
    }
}

/// The path under which this engine mints activity identifiers.
pub open spec fn op_slug(op: OpKind) -> Seq<char> {
    match op {
        OpKind::Create => "create"@,
        OpKind::Update => "update"@,
    }
}

/// The full text of a minted activity identifier: a URL rooted at the
/// origin instance, scoped by operation kind and a serial number.
pub open spec fn activity_id_text(origin: Seq<char>, op: OpKind, serial: nat) -> Seq<char> {
    origin + "/activities/"@ + op_slug(op) + "/"@ + dec_seq(serial)
}

/// Mints identifiers for outbound activities: unique across the lifetime
/// of the instance, dereferenceable as URLs rooted at the origin.
/// Generation cannot fail short of serial-number exhaustion.
pub struct ActivityIdGenerator {
    /// Root URL of the local instance, e.g. the scheme and host.
    pub origin: Uri,
    /// Next unused serial number; strictly increasing.
    pub serial: u64,
}

impl ActivityIdGenerator {
    /// A fresh generator for an origin instance.
    pub fn new(origin: Uri) -> (r: ActivityIdGenerator)
        ensures
            r.origin@ == origin@,
            r.serial == 0,
    {
        ActivityIdGenerator { origin, serial: 0 }
    }

    /// Mints the next identifier.  Distinct calls yield distinct texts,
    /// by `lemma_activity_ids_distinct`, since the serial number strictly
    /// increases.
    pub fn generate(&mut self, op: OpKind) -> (r: Uri)
        requires
            old(self).serial < u64::MAX,
        ensures
            final(self).origin == old(self).origin,
            final(self).serial == old(self).serial + 1,
            r@.text == activity_id_text(old(self).origin@.text, op, old(self).serial as nat),
            r@.host == old(self).origin@.host,
    {
        let mut t = self.origin.text.clone();
        t.append("/activities/");
        match op {
            OpKind::Create => t.append("create"),
            OpKind::Update => t.append("update"),
        }
        t.append("/");
        append_dec(&mut t, self.serial);
        self.serial = self.serial + 1;
        proof {
            assert(t@ =~= activity_id_text(old(self).origin@.text, op, old(self).serial as nat));
        }
        Uri { text: t, host: self.origin.host.clone() }
    }
}

/// Identifier uniqueness: for one origin and one operation kind, distinct
/// serial numbers mint distinct identifier texts.
pub proof fn lemma_activity_ids_distinct(
    origin: Seq<char>,
    op: OpKind,
    s1: nat,
    s2: nat,
)
    requires
        s1 != s2,
    ensures
        activity_id_text(origin, op, s1) != activity_id_text(origin, op, s2),
{
    let p = origin + "/activities/"@ + op_slug(op) + "/"@;
    let t1 = activity_id_text(origin, op, s1);
    let t2 = activity_id_text(origin, op, s2);
    assert(t1 =~= p + dec_seq(s1));
    assert(t2 =~= p + dec_seq(s2));
    if t1 == t2 {
        assert(dec_seq(s1).len() == t1.len() - p.len());
        assert(dec_seq(s2).len() == t2.len() - p.len());
        assert(dec_seq(s1) =~= t1.subrange(p.len() as int, t1.len() as int));
        assert(dec_seq(s2) =~= t2.subrange(p.len() as int, t2.len() as int));
        lemma_dec_seq_injective(s1, s2);
    }
}

} // verus!
