//! Label values of the two request series.
//!
//! Every sample is keyed by three values: the route the request was
//! dispatched to, the request method, and the response status in decimal.
//! This module says what each value is and when a request is left out
//! because it is the scrape itself.

use vstd::prelude::*;

verus! {

/// The method whose requests to the scrape path are not recorded.
pub const SCRAPE_METHOD: &'static str = "GET";

/// One combination of label values, as a mathematical value.
pub struct LabelTuple {
    /// The route template, or the literal path of an unrouted request.
    pub endpoint: Seq<char>,
    /// The request method.
    pub method: Seq<char>,
    /// The response status, in decimal.
    pub status: Seq<char>,
}

/// One combination of label values, as handed to the series.
#[derive(Debug, PartialEq, Eq)]
pub struct LabelValues {
    /// The route template, or the literal path of an unrouted request.
    pub endpoint: String,
    /// The request method.
    pub method: String,
    /// The response status, in decimal.
    pub status: String,
}

impl View for LabelValues {
    type V = LabelTuple;

    open spec fn view(&self) -> LabelTuple {
        LabelTuple { endpoint: self.endpoint@, method: self.method@, status: self.status@ }
    }
}

/// The character that writes the decimal digit `d`.
pub open spec fn digit(d: nat) -> char {
    if d == 0 {
        '0'
    } else if d == 1 {
        '1'
    } else if d == 2 {
        '2'
    } else if d == 3 {
        '3'
    } else if d == 4 {
        '4'
    } else if d == 5 {
        '5'
    } else if d == 6 {
        '6'
    } else if d == 7 {
        '7'
    } else if d == 8 {
        '8'
    } else {
        '9'
    }
}

/// `n` written in decimal, without leading zeros.
pub open spec fn decimal(n: nat) -> Seq<char>
    decreases n,
{
    if n < 10 {
        seq![digit(n)]
    } else {
        decimal(n / 10).push(digit(n % 10))
    }
}

/// The endpoint label of a request: the route template it matched, or its
/// literal path where no template is known.
pub open spec fn route_label(matched: Option<Seq<char>>, raw: Seq<char>) -> Seq<char> {
    match matched {
        Some(template) => template,
        None => raw,
    }
}

/// A route template as a mathematical value, where there is one.
pub open spec fn template_of(matched: Option<&str>) -> Option<Seq<char>> {
    match matched {
        Some(template) => Some(template@),
        None => None,
    }
}

/// Whether a request is the scrape itself: self-exclusion is configured,
/// the path is the scrape path and the method is `GET`.
pub open spec fn is_scrape(scrape: Option<Seq<char>>, path: Seq<char>, method: Seq<char>) -> bool {
    scrape == Some(path) && method == SCRAPE_METHOD@
}

/// The label tuple of a response with status `status` to a request for
/// `path` with method `method`.
pub open spec fn labels_of(path: Seq<char>, method: Seq<char>, status: u16) -> LabelTuple {
    LabelTuple { endpoint: path, method: method, status: decimal(status as nat) }
}

/// Different digits are written with different characters.
pub proof fn lemma_digit_injective(a: nat, b: nat)
    requires
        a < 10,
        b < 10,
        digit(a) == digit(b),
    ensures
        a == b,
{
}

/// A number below ten is written with one character, any other with more.
pub proof fn lemma_decimal_len(n: nat)
    ensures
        n < 10 ==> decimal(n).len() == 1,
        n >= 10 ==> decimal(n).len() >= 2,
    decreases n,
{
    if n >= 10 {
        lemma_decimal_len(n / 10);
    }
}

/// Different numbers are written differently: no two status codes share a
/// `status` label.
pub proof fn lemma_decimal_injective(a: nat, b: nat)
    requires
        decimal(a) == decimal(b),
    ensures
        a == b,
    decreases a,
{
    lemma_decimal_len(a);
    lemma_decimal_len(b);
    if a < 10 && b < 10 {
        assert(decimal(a)[0] == digit(a));
        assert(decimal(b)[0] == digit(b));
        lemma_digit_injective(a, b);
    } else if a >= 10 && b >= 10 {
        let high_a = decimal(a / 10);
        let high_b = decimal(b / 10);
        assert(decimal(a).last() == digit(a % 10));
        assert(decimal(b).last() == digit(b % 10));
        lemma_digit_injective(a % 10, b % 10);
        assert(decimal(a).drop_last() =~= high_a);
        assert(decimal(b).drop_last() =~= high_b);
        lemma_decimal_injective(a / 10, b / 10);
    }
}

/// Label tuples are equal exactly when path, method and status code are.
pub proof fn lemma_labels_injective(
    path: Seq<char>,
    method: Seq<char>,
    status: u16,
    other_path: Seq<char>,
    other_method: Seq<char>,
    other_status: u16,
)
    ensures
        labels_of(path, method, status) == labels_of(other_path, other_method, other_status) <==> (path
            == other_path && method == other_method && status == other_status),
{
    if decimal(status as nat) == decimal(other_status as nat) {
        lemma_decimal_injective(status as nat, other_status as nat);
    }
}

fn digit_text(d: u16) -> (s: &'static str)
    requires
        d < 10,
    ensures
        s@ == seq![digit(d as nat)],
{
    proof {
        reveal_strlit("0");
        reveal_strlit("1");
        reveal_strlit("2");
        reveal_strlit("3");
        reveal_strlit("4");
        reveal_strlit("5");
        reveal_strlit("6");
        reveal_strlit("7");
        reveal_strlit("8");
        reveal_strlit("9");
    }
    let s: &'static str = if d == 0 {
        "0"
    } else if d == 1 {
        "1"
    } else if d == 2 {
        "2"
    } else if d == 3 {
        "3"
    } else if d == 4 {
        "4"
    } else if d == 5 {
        "5"
    } else if d == 6 {
        "6"
    } else if d == 7 {
        "7"
    } else if d == 8 {
        "8"
    } else {
        "9"
    };
    assert(s@ =~= seq![digit(d as nat)]);
    s
}

/// Writes a status code as the `status` label shows it.
pub fn status_label(code: u16) -> (s: String)
    ensures
        s@ == decimal(code as nat),
    decreases code,
{
    if code < 10 {
        digit_text(code).to_owned()
    } else {
        let mut s = status_label(code / 10);
        s.append(digit_text(code % 10));
        s
    }
}

/// Picks the endpoint label of a request.
pub fn label_path(matched: Option<&str>, raw: &str) -> (s: String)
    ensures
        s@ == route_label(template_of(matched), raw@),
{
    match matched {
        Some(template) => template.to_owned(),
        None => raw.to_owned(),
    }
}

/// Builds the label values of one sample.
pub fn sample_labels(path: &str, method: &str, status: u16) -> (labels: LabelValues)
    ensures
        labels@ == labels_of(path@, method@, status),
{
    LabelValues { endpoint: path.to_owned(), method: method.to_owned(), status: status_label(status) }
}

} // verus!
