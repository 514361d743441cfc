//! Conversions from raw text to typed scalars: whole numbers, decimal
//! numbers, absolute URLs and timestamps.

use vstd::prelude::*;
use crate::error::{ErrorView, RawKumaResult, value_parse_error};
use crate::text::{chars_of, digit_char, number_text, push_char};

verus! {

/// Whether a character is one of `0` to `9`.
pub open spec fn is_digit(c: char) -> bool {
    '0' <= c && c <= '9'
}

/// The value of a digit character.
pub open spec fn digit_of(c: char) -> u8 {
    ((c as u32) - ('0' as u32)) as u8
}

fn digit_value(c: char) -> (r: Option<u8>)
    ensures
        r is Some <==> is_digit(c),
        r is Some ==> r->Some_0 == digit_of(c) && r->Some_0 <= 9,
{
    let code = c as u32;
    if code >= 48 && code <= 57 {
        Some((code - 48) as u8)
    } else {
        None
    }
}

/// Whether every character is a digit.
pub open spec fn all_digits(d: Seq<char>) -> bool {
    forall|i: int| 0 <= i < d.len() ==> is_digit(#[trigger] d[i])
}

/// The number that a run of digits writes in decimal.
pub open spec fn digits_value(d: Seq<char>) -> nat
    decreases d.len(),
{
    if d.len() == 0 {
        0
    } else {
        digits_value(d.drop_last()) * 10 + digit_of(d.last()) as nat
    }
}

/// The text that is left once an optional leading `+` is taken off.
pub open spec fn after_plus(s: Seq<char>) -> Seq<char> {
    if s.len() > 0 && s[0] == '+' {
        s.skip(1)
    } else {
        s
    }
}

/// The whole number that `s` writes, if it is an optional `+` and then one
/// digit or more, and the number is at most `max`.
pub open spec fn unsigned_of(s: Seq<char>, max: nat) -> Option<nat> {
    let body = after_plus(s);
    if body.len() > 0 && all_digits(body) && digits_value(body) <= max {
        Some(digits_value(body))
    } else {
        None
    }
}

/// A run of digits is worth at least as much as each of its prefixes.
pub proof fn lemma_prefix_value(d: Seq<char>, k: int)
    requires
        0 <= k <= d.len(),
    ensures
        digits_value(d.take(k)) <= digits_value(d),
    decreases d.len() - k,
{
    if k == d.len() {
        assert(d.take(k) =~= d);
    } else {
        lemma_prefix_value(d, k + 1);
        assert(d.take(k + 1).drop_last() =~= d.take(k));
    }
}

/// A number that is written in decimal reads back as itself.
pub proof fn lemma_number_text_reads_back(n: nat, max: nat)
    requires
        n <= max,
    ensures
        unsigned_of(number_text(n), max) == Some(n),
{
    lemma_number_text_value(n);
    assert(is_digit(number_text(n)[0]));
}

/// The decimal writing of a number is a run of digits worth that number.
pub proof fn lemma_number_text_value(n: nat)
    ensures
        number_text(n).len() > 0,
        all_digits(number_text(n)),
        digits_value(number_text(n)) == n,
    decreases n,
{
    let text = number_text(n);
    if n < 10 {
        assert(text =~= seq![digit_char(n)]);
        assert(text.drop_last() =~= Seq::<char>::empty());
        assert(digits_value(text.drop_last()) == 0);
        assert(digit_of(digit_char(n)) == n);
    } else {
        lemma_number_text_value(n / 10);
        let head = number_text(n / 10);
        assert(text == head.push(digit_char(n % 10)));
        assert(text.drop_last() =~= head);
        assert(digit_of(digit_char(n % 10)) == n % 10);
        assert forall|i: int| 0 <= i < text.len() implies is_digit(#[trigger] text[i]) by {
            if i < head.len() {
                assert(text[i] == head[i]);
            }
        }
    }
}

/// Reads a whole number of at most `max`.
pub fn parse_unsigned(raw: &str, max: u64) -> (r: Option<u64>)
    ensures
        r is Some <==> unsigned_of(raw@, max as nat) is Some,
        r is Some ==> r->Some_0 as nat == unsigned_of(raw@, max as nat)->Some_0,
{
    let chars = chars_of(raw);
    let n = chars.len();
    let start: usize = if n > 0 && chars[0] == '+' {
        1
    } else {
        0
    };
    let ghost body = after_plus(raw@);
    proof {
        assert(body =~= chars@.skip(start as int));
    }
    if start == n {
        return None;
    }
    let mut acc: u64 = 0;
    let mut i: usize = start;
    while i < n
        invariant
            start <= i <= n,
            n == chars@.len(),
            body == chars@.skip(start as int),
            body == after_plus(raw@),
            all_digits(body.take(i - start)),
            acc as nat == digits_value(body.take(i - start)),
            acc <= max,
        decreases n - i,
    {
        let ghost k = i - start;
        proof {
            assert(body.take(k + 1).drop_last() =~= body.take(k));
            assert(body.take(k + 1).last() == chars@[i as int]);
        }
        match digit_value(chars[i]) {
            None => {
                proof {
                    assert(!is_digit(body[k]));
                }
                return None;
            },
            Some(d) => {
                if acc > max / 10 || (d as u64) > max - acc * 10 {
                    proof {
                        lemma_prefix_value(body, k + 1);
                        assert(digits_value(body.take(k + 1)) == acc as nat * 10 + d as nat);
                    }
                    return None;
                }
                acc = acc * 10 + d as u64;
                proof {
                    assert forall|j: int| 0 <= j < k + 1 implies is_digit(
                        #[trigger] body.take(k + 1)[j],
                    ) by {
                        if j < k {
                            assert(body.take(k + 1)[j] == body.take(k)[j]);
                        }
                    }
                }
            },
        }
        i = i + 1;
    }
    proof {
        assert(body.take(i - start) =~= body);
    }
    Some(acc)
}

/// What reading a 16-bit whole number from `raw` yields.
pub open spec fn u16_of(raw: Seq<char>) -> Result<u16, ErrorView> {
    match unsigned_of(raw, 0xffff) {
        Some(n) => Ok(n as u16),
        None => Err(ErrorView::ValueParseError { raw, target: "u16"@ }),
    }
}

/// What reading a 32-bit whole number from `raw` yields.
pub open spec fn u32_of(raw: Seq<char>) -> Result<u32, ErrorView> {
    match unsigned_of(raw, 0xffff_ffff) {
        Some(n) => Ok(n as u32),
        None => Err(ErrorView::ValueParseError { raw, target: "u32"@ }),
    }
}

/// Reads a 16-bit whole number.
pub fn parse_u16(raw: &str) -> (r: RawKumaResult<u16>)
    ensures
        crate::error::result_plain(r) == u16_of(raw@),
{
    match parse_unsigned(raw, 0xffff) {
        Some(n) => Ok(n as u16),
        None => Err(value_parse_error(raw, "u16")),
    }
}

/// Reads a 32-bit whole number.
pub fn parse_u32(raw: &str) -> (r: RawKumaResult<u32>)
    ensures
        crate::error::result_plain(r) == u32_of(raw@),
{
    match parse_unsigned(raw, 0xffff_ffff) {
        Some(n) => Ok(n as u32),
        None => Err(value_parse_error(raw, "u32")),
    }
}

/// A decimal number, kept exactly as it was written: its sign, its digits
/// with the point taken out, and how many of them stood behind the point.
/// Its value is the number that the digits write, divided by ten to the
/// power of `scale`.
#[derive(Clone, Debug, PartialEq, Eq)]
pub struct Decimal {
    pub negative: bool,
    pub digits: Vec<u8>,
    pub scale: usize,
}

/// Mathematical model of a [`Decimal`].
pub struct DecimalView {
    pub negative: bool,
    pub digits: Seq<u8>,
    pub scale: nat,
}

impl View for Decimal {
    type V = DecimalView;

    open spec fn view(&self) -> DecimalView {
        DecimalView { negative: self.negative, digits: self.digits@, scale: self.scale as nat }
    }
}

impl DecimalView {
    /// At least one digit, each below ten, and no more of them behind the
    /// point than there are.
    pub open spec fn well_formed(self) -> bool {
        &&& self.digits.len() >= 1
        &&& self.scale <= self.digits.len()
        &&& forall|i: int| 0 <= i < self.digits.len() ==> #[trigger] self.digits[i] <= 9
    }

    /// The number that the digits write, the point left aside.
    pub open spec fn mantissa(self) -> nat {
        mantissa_of(self.digits)
    }
}

/// The number that a run of digit values writes in decimal.
pub open spec fn mantissa_of(digits: Seq<u8>) -> nat
    decreases digits.len(),
{
    if digits.len() == 0 {
        0
    } else {
        mantissa_of(digits.drop_last()) * 10 + digits.last() as nat
    }
}

/// The model of the number zero.
pub open spec fn zero_view() -> DecimalView {
    DecimalView { negative: false, digits: seq![0u8], scale: 0 }
}

impl Decimal {
    /// The number zero.
    pub fn zero() -> (r: Decimal)
        ensures
            r@ == zero_view(),
            r@.well_formed(),
    {
        let mut digits: Vec<u8> = Vec::new();
        digits.push(0);
        proof {
            assert(digits@ =~= seq![0u8]);
        }
        Decimal { negative: false, digits, scale: 0 }
    }
}

/// The characters that write a run of digit values.
pub open spec fn digits_text(digits: Seq<u8>) -> Seq<char> {
    digits.map_values(|d: u8| digit_char(d as nat))
}

/// A decimal number written out: a minus sign where it is negative, the
/// digits before the point or a single zero where there are none, and the
/// point with the digits behind it where there are any.
pub open spec fn written(d: DecimalView) -> Seq<char>
    recommends
        d.well_formed(),
{
    let whole = d.digits.take(d.digits.len() - d.scale);
    let fraction = d.digits.skip(d.digits.len() - d.scale);
    (if d.negative {
        seq!['-']
    } else {
        Seq::empty()
    }) + (if whole.len() == 0 {
        seq!['0']
    } else {
        digits_text(whole)
    }) + (if d.scale > 0 {
        seq!['.'] + digits_text(fraction)
    } else {
        Seq::empty()
    })
}

fn digit_to_char(d: u8) -> (c: char)
    requires
        d <= 9,
    ensures
        c == digit_char(d as nat),
{
    if d == 0 {
        '0'
    } else if d == 1 {
        '1'
    } else if d == 2 {
        '2'
    } else if d == 3 {
        '3'
    } else if d == 4 {
        '4'
    } else if d == 5 {
        '5'
    } else if d == 6 {
        '6'
    } else if d == 7 {
        '7'
    } else if d == 8 {
        '8'
    } else {
        '9'
    }
}

impl Decimal {
    /// Whether the number has one digit at least, each below ten, and no
    /// more digits behind the point than it has.
    pub fn is_well_formed(&self) -> (r: bool)
        ensures
            r == self@.well_formed(),
    {
        if self.digits.len() == 0 || self.scale > self.digits.len() {
            return false;
        }
        let mut i: usize = 0;
        while i < self.digits.len()
            invariant
                i <= self.digits@.len(),
                forall|k: int| 0 <= k < i ==> #[trigger] self.digits@[k] <= 9,
            decreases self.digits@.len() - i,
        {
            if self.digits[i] > 9 {
                return false;
            }
            i = i + 1;
        }
        true
    }

    /// Writes the number out in decimal.
    pub fn to_text(&self) -> (text: String)
        requires
            self@.well_formed(),
        ensures
            text@ == written(self@),
    {
        let n = self.digits.len();
        let split = n - self.scale;
        let ghost whole = self.digits@.take(split as int);
        let ghost fraction = self.digits@.skip(split as int);
        let mut text = String::new();
        if self.negative {
            push_char(&mut text, '-');
        }
        let ghost sign = text@;
        if split == 0 {
            push_char(&mut text, '0');
            proof {
                assert(text@ =~= sign + seq!['0']);
            }
        } else {
            let mut i: usize = 0;
            proof {
                assert(text@ =~= sign + digits_text(whole.take(0)));
            }
            while i < split
                invariant
                    i <= split <= n,
                    n == self.digits@.len(),
                    self@.well_formed(),
                    whole == self.digits@.take(split as int),
                    text@ == sign + digits_text(whole.take(i as int)),
                decreases split - i,
            {
                let c = digit_to_char(self.digits[i]);
                push_char(&mut text, c);
                proof {
                    assert(whole[i as int] == self.digits@[i as int]);
                    assert(digits_text(whole.take(i + 1)) =~= digits_text(
                        whole.take(i as int),
                    ).push(c));
                    assert(text@ =~= sign + digits_text(whole.take(i + 1)));
                }
                i = i + 1;
            }
            proof {
                assert(whole.take(split as int) =~= whole);
            }
        }
        let ghost head = text@;
        if self.scale > 0 {
            push_char(&mut text, '.');
            let mut j: usize = split;
            while j < n
                invariant
                    split <= j <= n,
                    n == self.digits@.len(),
                    self@.well_formed(),
                    fraction == self.digits@.skip(split as int),
                    text@ == head + seq!['.'] + digits_text(fraction.take(j - split)),
                decreases n - j,
            {
                let c = digit_to_char(self.digits[j]);
                push_char(&mut text, c);
                proof {
                    assert(fraction[j - split] == self.digits@[j as int]);
                    assert(digits_text(fraction.take(j - split + 1)) =~= digits_text(
                        fraction.take(j - split),
                    ).push(c));
                    assert(text@ =~= head + seq!['.'] + digits_text(fraction.take(j - split + 1)));
                }
                j = j + 1;
            }
            proof {
                assert(fraction.take(n - split) =~= fraction);
                assert(text@ =~= written(self@));
            }
        } else {
            proof {
                assert(text@ =~= written(self@));
            }
        }
        text
    }
}

/// Whether the text holds a decimal point.
pub open spec fn has_point(b: Seq<char>) -> bool {
    exists|i: int| 0 <= i < b.len() && #[trigger] b[i] == '.'
}

/// The place of a decimal point in the text.
pub open spec fn point_index(b: Seq<char>) -> int {
    choose|i: int| 0 <= i < b.len() && #[trigger] b[i] == '.'
}

/// The text with one decimal point taken out, if it holds one.
pub open spec fn without_point(b: Seq<char>) -> Seq<char> {
    if has_point(b) {
        b.take(point_index(b)) + b.skip(point_index(b) + 1)
    } else {
        b
    }
}

/// The text that is left once an optional leading sign is taken off.
pub open spec fn after_sign(s: Seq<char>) -> Seq<char> {
    if s.len() > 0 && (s[0] == '+' || s[0] == '-') {
        s.skip(1)
    } else {
        s
    }
}

/// Digits with at most one decimal point among them, before, between or
/// behind them, and one digit at least.
pub open spec fn is_decimal_body(b: Seq<char>) -> bool {
    without_point(b).len() > 0 && all_digits(without_point(b))
}

/// The decimal number that `s` writes: an optional sign, then digits with
/// at most one decimal point. No exponent, and no word for infinity or for
/// what is not a number.
pub open spec fn decimal_of(s: Seq<char>) -> Option<DecimalView> {
    let body = after_sign(s);
    if is_decimal_body(body) {
        Some(
            DecimalView {
                negative: s[0] == '-',
                digits: without_point(body).map_values(|c: char| digit_of(c)),
                scale: if has_point(body) {
                    (body.len() - 1 - point_index(body)) as nat
                } else {
                    0
                },
            },
        )
    } else {
        None
    }
}

/// The characters before place `i`, the one at `point` left out.
pub open spec fn kept(b: Seq<char>, point: Option<int>, i: int) -> Seq<char> {
    match point {
        Some(p) => b.take(p) + b.subrange(p + 1, i),
        None => b.take(i),
    }
}

/// Text with a character that is neither a digit nor a point is no decimal
/// number, and neither is text with two points.
pub proof fn lemma_not_decimal(b: Seq<char>, j: int, k: int)
    requires
        0 <= j <= k < b.len(),
        !is_digit(b[j]),
        !is_digit(b[k]),
        j == k ==> b[k] != '.',
    ensures
        !is_decimal_body(b),
{
    if has_point(b) {
        let p = point_index(b);
        let w = without_point(b);
        if k != p {
            let at = if k < p {
                k
            } else {
                k - 1
            };
            assert(w[at] == b[k]);
            assert(!is_digit(w[at]));
        } else {
            let at = if j < p {
                j
            } else {
                j - 1
            };
            assert(w[at] == b[j]);
            assert(!is_digit(w[at]));
        }
    } else {
        assert(!is_digit(without_point(b)[k]));
    }
}

/// Reads a decimal number.
pub fn parse_decimal(raw: &str) -> (r: Option<Decimal>)
    ensures
        r is Some <==> decimal_of(raw@) is Some,
        r is Some ==> r->Some_0@ == decimal_of(raw@)->Some_0,
        r is Some ==> r->Some_0@.well_formed(),
{
    let chars = chars_of(raw);
    let n = chars.len();
    let signed = n > 0 && (chars[0] == '+' || chars[0] == '-');
    let negative = n > 0 && chars[0] == '-';
    let start: usize = if signed {
        1
    } else {
        0
    };
    let ghost body = after_sign(raw@);
    proof {
        assert(body =~= chars@.skip(start as int));
    }
    let mut digits: Vec<u8> = Vec::new();
    let mut point: Option<usize> = None;
    let mut i: usize = start;
    while i < n
        invariant
            start <= i <= n,
            n == chars@.len(),
            body == chars@.skip(start as int),
            body == after_sign(raw@),
            point is Some ==> start <= point->Some_0 < i && body[point->Some_0 - start] == '.',
            point is None ==> forall|j: int| 0 <= j < i - start ==> #[trigger] body[j] != '.',
            forall|j: int|
                0 <= j < i - start && (point is Some ==> j != point->Some_0 - start) ==> is_digit(
                    #[trigger] body[j],
                ),
            digits@ == kept(
                body,
                match point {
                    Some(p) => Some(p - start),
                    None => None,
                },
                i - start,
            ).map_values(|c: char| digit_of(c)),
            forall|j: int| 0 <= j < digits@.len() ==> #[trigger] digits@[j] <= 9,
        decreases n - i,
    {
        let ghost k = i - start;
        let ghost place: Option<int> = match point {
            Some(p) => Some(p - start),
            None => None,
        };
        let c = chars[i];
        proof {
            assert(body[k] == c);
        }
        if c == '.' && point.is_none() {
            point = Some(i);
            proof {
                assert(kept(body, Some(k), k + 1) =~= kept(body, None, k));
            }
        } else {
            match digit_value(c) {
                Some(d) => {
                    proof {
                        assert(kept(body, place, k + 1) =~= kept(body, place, k).push(c));
                        assert(kept(body, place, k + 1).map_values(|c: char| digit_of(c))
                            =~= kept(body, place, k).map_values(|c: char| digit_of(c)).push(d));
                    }
                    digits.push(d);
                },
                None => {
                    proof {
                        if c == '.' {
                            lemma_not_decimal(body, point->Some_0 - start, k);
                        } else {
                            lemma_not_decimal(body, k, k);
                        }
                    }
                    return None;
                },
            }
        }
        i = i + 1;
    }
    let ghost place: Option<int> = match point {
        Some(p) => Some(p - start),
        None => None,
    };
    proof {
        match point {
            Some(p) => {
                let q = point_index(body);
                assert(body[p - start] == '.');
                assert(has_point(body));
                assert(body[q] == '.');
                if q != p - start {
                    assert(is_digit(body[q]));
                }
                assert(kept(body, place, n - start) =~= without_point(body));
            },
            None => {
                assert(!has_point(body));
                assert(kept(body, place, n - start) =~= without_point(body));
            },
        }
        let w = without_point(body);
        assert forall|j: int| 0 <= j < w.len() implies is_digit(#[trigger] w[j]) by {
            match point {
                Some(p) => {
                    if j < p - start {
                        assert(w[j] == body[j]);
                    } else {
                        assert(w[j] == body[j + 1]);
                    }
                },
                None => {},
            }
        }
    }
    if digits.len() == 0 {
        return None;
    }
    let scale: usize = match point {
        Some(p) => n - 1 - p,
        None => 0,
    };
    Some(Decimal { negative, digits, scale })
}

/// What reading a decimal number from `raw` yields.
pub open spec fn decimal_result_of(raw: Seq<char>) -> Result<DecimalView, ErrorView> {
    match decimal_of(raw) {
        Some(value) => Ok(value),
        None => Err(ErrorView::ValueParseError { raw, target: "float"@ }),
    }
}

/// Reads a decimal number, as ratings, ordinals and sizes are written.
pub fn parse_float(raw: &str) -> (r: RawKumaResult<Decimal>)
    ensures
        crate::error::result_view(r) == decimal_result_of(raw@),
        r is Ok ==> r->Ok_0@.well_formed(),
{
    match parse_decimal(raw) {
        Some(value) => Ok(value),
        None => Err(value_parse_error(raw, "float")),
    }
}

/// Whether a raw URL leaves the scheme out and starts at the host: `//`.
pub open spec fn is_protocol_relative(raw: Seq<char>) -> bool {
    raw.len() >= 2 && raw[0] == '/' && raw[1] == '/'
}

/// The raw URL with `https:` put in front where it is protocol-relative.
pub open spec fn normalized_url(raw: Seq<char>) -> Seq<char> {
    if is_protocol_relative(raw) {
        "https:"@ + raw
    } else {
        raw
    }
}

/// Puts `https:` in front of a protocol-relative URL and leaves any other
/// text as it is.
pub fn normalize_url(raw: &str) -> (out: String)
    ensures
        out@ == normalized_url(raw@),
{
    let n = raw.unicode_len();
    if n >= 2 && raw.get_char(0) == '/' && raw.get_char(1) == '/' {
        String::from_str("https:").concat(raw)
    } else {
        String::from_str(raw)
    }
}

/// A protocol-relative URL gets `https:` in front, anything else is left as
/// it is, and what has been normalised once is not changed again.
pub proof fn lemma_normalized_url(raw: Seq<char>)
    ensures
        is_protocol_relative(raw) ==> normalized_url(raw) == "https:"@ + raw,
        !is_protocol_relative(raw) ==> normalized_url(raw) == raw,
        normalized_url(normalized_url(raw)) == normalized_url(raw),
{
    reveal_strlit("https:");
    if is_protocol_relative(raw) {
        assert(("https:"@ + raw)[0] == 'h');
    }
}

/// The serialised form of the absolute URL that `text` parses to, if it
/// parses to one.
pub uninterp spec fn parsed_url(text: Seq<char>) -> Option<Seq<char>>;

/// `Url::parse`: the serialisation of the parsed URL, or nothing where the
/// text is not an absolute URL.
#[verifier::external_body]
pub(crate) fn parse_url(text: &str) -> (r: Option<String>)
    ensures
        r is Some <==> parsed_url(text@) is Some,
        r is Some ==> r->Some_0@ == parsed_url(text@)->Some_0,
{
    match url::Url::parse(text) {
        Ok(parsed) => Some(String::from(parsed)),
        Err(_) => None,
    }
}

/// What reading an absolute URL from `raw` yields.
pub open spec fn absolute_url_of(raw: Seq<char>) -> Result<Seq<char>, ErrorView> {
    match parsed_url(normalized_url(raw)) {
        Some(url) => Ok(url),
        None => Err(ErrorView::ValueParseError { raw, target: "url"@ }),
    }
}

/// Reads an absolute URL: normalises the raw text, then parses it.
pub fn absolute_url(raw: &str) -> (r: RawKumaResult<String>)
    ensures
        crate::dom::text_result(r) == absolute_url_of(raw@),
{
    let normal = normalize_url(raw);
    match parse_url(normal.as_str()) {
        Some(url) => Ok(url),
        None => Err(value_parse_error(raw, "url")),
    }
}

/// What reading an optional URL from `raw` yields: nothing for the empty
/// string, else the absolute URL or the failure to parse one.
pub open spec fn optional_url_of(raw: Seq<char>) -> Result<Option<Seq<char>>, ErrorView> {
    if raw.len() == 0 {
        Ok(None)
    } else {
        match absolute_url_of(raw) {
            Ok(url) => Ok(Some(url)),
            Err(error) => Err(error),
        }
    }
}

/// A point in time with the offset from UTC under which it was written.
#[derive(Clone, Copy, Debug, PartialEq, Eq, Structural)]
pub struct Timestamp {
    /// Seconds since the start of 1970, UTC.
    pub seconds: i64,
    /// Nanoseconds past that second.
    pub nanos: u32,
    /// Seconds that local time is ahead of UTC.
    pub offset_seconds: i32,
}

/// The seconds since 1970, the nanoseconds past the second and the offset
/// from UTC in seconds of the RFC 3339 timestamp that `text` writes, if it
/// writes one.
pub uninterp spec fn rfc3339_of(text: Seq<char>) -> Option<(i64, u32, i32)>;

/// `DateTime::parse_from_rfc3339`, read out through `timestamp`,
/// `timestamp_subsec_nanos` and the offset's `local_minus_utc`.
#[verifier::external_body]
pub(crate) fn parse_rfc3339(text: &str) -> (r: Option<(i64, u32, i32)>)
    ensures
        r == rfc3339_of(text@),
{
    match chrono::DateTime::parse_from_rfc3339(text) {
        Ok(t) => Some((t.timestamp(), t.timestamp_subsec_nanos(), t.offset().local_minus_utc())),
        Err(_) => None,
    }
}

/// What reading a timestamp from `raw` yields.
pub open spec fn timestamp_of(raw: Seq<char>) -> Result<Timestamp, ErrorView> {
    match rfc3339_of(raw) {
        Some(parts) => Ok(Timestamp { seconds: parts.0, nanos: parts.1, offset_seconds: parts.2 }),
        None => Err(ErrorView::ValueParseError { raw, target: "datetime"@ }),
    }
}

/// Reads an RFC 3339 timestamp.
pub fn parse_timestamp(raw: &str) -> (r: RawKumaResult<Timestamp>)
    ensures
        crate::error::result_plain(r) == timestamp_of(raw@),
{
    match parse_rfc3339(raw) {
        Some(parts) => Ok(Timestamp { seconds: parts.0, nanos: parts.1, offset_seconds: parts.2 }),
        None => Err(value_parse_error(raw, "datetime")),
    }
}

} // verus!
