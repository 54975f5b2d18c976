use vstd::prelude::*;
use vstd::string::*;

verus! {

/// An ASCII decimal digit.
pub open spec fn is_digit(c: char) -> bool {
    '0' <= c && c <= '9'
}

/// The digits of `s`, in order, with every other character dropped.
pub open spec fn digits_of(s: Seq<char>) -> Seq<char>
    decreases s.len(),
{
    if s.len() == 0 {
        Seq::empty()
    } else if is_digit(s.last()) {
        digits_of(s.drop_last()).push(s.last())
    } else {
        digits_of(s.drop_last())
    }
}

/// The ten national digits carried by a digit string: ten digits as they are,
/// or eleven digits that start with the country code `1`.
pub open spec fn national_digits(d: Seq<char>) -> Option<Seq<char>> {
    if d.len() == 11 && d[0] == '1' {
        Some(d.drop_first())
    } else if d.len() == 10 {
        Some(d)
    } else {
        None
    }
}

/// Why a text is not a North American number.
#[derive(Clone, Copy, Debug, PartialEq, Eq, Structural)]
pub enum PhoneRejection {
    /// The text holds this many digits, which is neither ten nor eleven led by `1`.
    DigitCount(usize),
    /// The area code starts with `0` or `1`.
    AreaCode,
    /// The exchange starts with `0` or `1`.
    Exchange,
}

/// The outcome of parsing the text `s`: the canonical `+1NXXNXXXXXX` form, or
/// the reason it is refused.
pub open spec fn parse_outcome(s: Seq<char>) -> Result<Seq<char>, PhoneRejection> {
    let d = digits_of(s);
    match national_digits(d) {
        None => Err(PhoneRejection::DigitCount(d.len() as usize)),
        Some(ten) => if ten[0] == '0' || ten[0] == '1' {
            Err(PhoneRejection::AreaCode)
        } else if ten[3] == '0' || ten[3] == '1' {
            Err(PhoneRejection::Exchange)
        } else {
            Ok(seq!['+', '1'] + ten)
        },
    }
}

/// A canonical North American number: `+1`, then ten digits whose area code
/// and exchange start with 2-9.
pub open spec fn is_canonical(p: Seq<char>) -> bool {
    &&& p.len() == 12
    &&& p[0] == '+'
    &&& p[1] == '1'
    &&& forall|i: int| 2 <= i < 12 ==> is_digit(#[trigger] p[i])
    &&& p[2] != '0' && p[2] != '1'
    &&& p[5] != '0' && p[5] != '1'
}

/// A phone number refused by `parse_north_american`.
#[derive(Clone, Copy, Debug, PartialEq, Eq, Structural)]
pub struct PhoneNumberError {
    pub reason: PhoneRejection,
}

/// The digit character for `d` below ten.
pub open spec fn digit_char(d: nat) -> char {
    if d == 0 { '0' } else if d == 1 { '1' } else if d == 2 { '2' } else if d == 3 { '3' }
    else if d == 4 { '4' } else if d == 5 { '5' } else if d == 6 { '6' } else if d == 7 { '7' }
    else if d == 8 { '8' } else { '9' }
}

/// `n` written in decimal, without leading zeros.
pub open spec fn decimal(n: nat) -> Seq<char>
    decreases n,
{
    if n < 10 {
        seq![digit_char(n)]
    } else {
        decimal(n / 10).push(digit_char(n % 10))
    }
}

/// The message of each refusal.
pub open spec fn message_of(reason: PhoneRejection) -> Seq<char> {
    match reason {
        PhoneRejection::AreaCode => "invalid phone number: area code must start with 2-9"@,
        PhoneRejection::Exchange => "invalid phone number: exchange must start with 2-9"@,
        PhoneRejection::DigitCount(n) => "invalid phone number: expected 10-digit NANP number, got "@
            + decimal(n as nat) + " digits"@,
    }
}

fn push_digit(s: &mut String, d: usize)
    requires
        d < 10,
    ensures
        final(s)@ == old(s)@.push(digit_char(d as nat)),
{
    let c = match d {
        0 => '0',
        1 => '1',
        2 => '2',
        3 => '3',
        4 => '4',
        5 => '5',
        6 => '6',
        7 => '7',
        8 => '8',
        _ => '9',
    };
    push_char(s, c);
}

/// Appends `n` in decimal.
fn push_decimal(s: &mut String, n: usize)
    ensures
        final(s)@ == old(s)@ + decimal(n as nat),
    decreases n,
{
    if n >= 10 {
        push_decimal(s, n / 10);
    }
    push_digit(s, n % 10);
    proof {
        if n >= 10 {
            assert(old(s)@ + decimal(n as nat) =~= (old(s)@ + decimal((n / 10) as nat)).push(digit_char((n % 10) as nat)));
        } else {
            assert(old(s)@ + decimal(n as nat) =~= old(s)@.push(digit_char(n as nat)));
        }
    }
}

impl PhoneNumberError {
    /// The human-readable explanation, `invalid phone number: ...`.
    pub fn message(&self) -> (r: String)
        ensures
            r@ == message_of(self.reason),
    {
        match self.reason {
            PhoneRejection::DigitCount(n) => {
                let mut r = String::from_str("invalid phone number: expected 10-digit NANP number, got ");
                push_decimal(&mut r, n);
                r.append(" digits");
                r
            },
            PhoneRejection::AreaCode => {
                String::from_str("invalid phone number: area code must start with 2-9")
            },
            PhoneRejection::Exchange => {
                String::from_str("invalid phone number: exchange must start with 2-9")
            },
        }
    }
}

/// A validated North American phone number, held as `+1NXXNXXXXXX`.
#[derive(Clone, Debug)]
pub struct PhoneNumber(String);

impl View for PhoneNumber {
    type V = Seq<char>;

    closed spec fn view(&self) -> Seq<char> {
        self.0@
    }
}

/// Relies on `String::push`: the character is appended at the end.
#[verifier::external_body]
fn push_char(s: &mut String, c: char)
    ensures
        final(s)@ == old(s)@.push(c),
{
    s.push(c)
}

proof fn lemma_digits_step(s: Seq<char>, i: int)
    requires
        0 <= i < s.len(),
    ensures
        digits_of(s.subrange(0, i + 1)) == if is_digit(s[i]) {
            digits_of(s.subrange(0, i)).push(s[i])
        } else {
            digits_of(s.subrange(0, i))
        },
{
    assert(s.subrange(0, i + 1).drop_last() =~= s.subrange(0, i));
}

impl PhoneNumber {
    /// A copy of this number.
    pub fn duplicate(&self) -> (r: PhoneNumber)
        ensures
            r == *self,
    {
        PhoneNumber(self.0.clone())
    }

    /// The canonical text, `+1` followed by ten digits.
    pub fn as_str(&self) -> (r: &str)
        ensures
            r@ == self@,
    {
        self.0.as_str()
    }

    /// Whether the number is in canonical form; every `PhoneNumber` is.
    pub open spec fn wf(&self) -> bool {
        is_canonical(self@)
    }

    /// Parses a North American number given as `555-234-5678`, `(555) 234-5678`,
    /// `5552345678` or `+15552345678`, and returns it as `+1NXXNXXXXXX`.
    pub fn parse_north_american(input: &str) -> (r: Result<PhoneNumber, PhoneNumberError>)
        ensures
            match r {
                Ok(p) => parse_outcome(input@) == Ok::<Seq<char>, PhoneRejection>(p@) && p.wf(),
                Err(e) => parse_outcome(input@) == Err::<Seq<char>, PhoneRejection>(e.reason),
            },
    {
        let n = input.unicode_len();
        let mut digits: Vec<char> = Vec::new();
        let mut i: usize = 0;
        while i < n
            invariant
                n == input@.len(),
                i <= n,
                digits@ == digits_of(input@.subrange(0, i as int)),
                digits@.len() <= i,
            decreases n - i,
        {
            let c = input.get_char(i);
            proof {
                lemma_digits_step(input@, i as int);
            }
            if '0' <= c && c <= '9' {
                digits.push(c);
            }
            i = i + 1;
        }
        assert(input@.subrange(0, n as int) =~= input@);
        let d = Ghost(digits@);
        let start: usize = if digits.len() == 11 && digits[0] == '1' {
            1
        } else if digits.len() == 10 {
            0
        } else {
            return Err(PhoneNumberError { reason: PhoneRejection::DigitCount(digits.len()) });
        };
        let ghost ten = national_digits(d@).unwrap();
        assert(ten =~= d@.subrange(start as int, start + 10));
        if digits[start] == '0' || digits[start] == '1' {
            return Err(PhoneNumberError { reason: PhoneRejection::AreaCode });
        }
        if digits[start + 3] == '0' || digits[start + 3] == '1' {
            return Err(PhoneNumberError { reason: PhoneRejection::Exchange });
        }
        let mut out = String::from_str("+1");
        proof {
            reveal_strlit("+1");
        }
        let mut k: usize = 0;
        while k < 10
            invariant
                start <= 1,
                start + 10 <= digits@.len(),
                k <= 10,
                out@ =~= seq!['+', '1'] + d@.subrange(start as int, start + k),
                digits@ == d@,
            decreases 10 - k,
        {
            push_char(&mut out, digits[start + k]);
            assert(d@.subrange(start as int, start + k + 1) =~= d@.subrange(start as int, start + k).push(d@[start + k]));
            k = k + 1;
        }
        proof {
            lemma_digits_are_digits(input@);
        }
        Ok(PhoneNumber(out))
    }
}

/// Every character of `digits_of(s)` is a digit.
pub proof fn lemma_digits_are_digits(s: Seq<char>)
    ensures
        forall|i: int| 0 <= i < digits_of(s).len() ==> is_digit(#[trigger] digits_of(s)[i]),
    decreases s.len(),
{
    if s.len() > 0 {
        lemma_digits_are_digits(s.drop_last());
        let prev = digits_of(s.drop_last());
        assert forall|i: int| 0 <= i < digits_of(s).len() implies is_digit(#[trigger] digits_of(s)[i]) by {
            if i < prev.len() {
                assert(digits_of(s)[i] == prev[i]);
            }
        }
    }
}

/// Ten digits that make a valid North American number: area code and exchange
/// start with 2-9.
pub open spec fn is_valid_ten(t: Seq<char>) -> bool {
    &&& t.len() == 10
    &&& forall|i: int| 0 <= i < 10 ==> is_digit(#[trigger] t[i])
    &&& t[0] != '0' && t[0] != '1'
    &&& t[3] != '0' && t[3] != '1'
}

/// `NXX-NXX-XXXX`
pub open spec fn dashed_form(t: Seq<char>) -> Seq<char> {
    t.subrange(0, 3) + seq!['-'] + t.subrange(3, 6) + seq!['-'] + t.subrange(6, 10)
}

/// `(NXX) NXX-XXXX`
pub open spec fn parenthesized_form(t: Seq<char>) -> Seq<char> {
    seq!['('] + t.subrange(0, 3) + seq![')', ' '] + t.subrange(3, 6) + seq!['-'] + t.subrange(6, 10)
}

/// `+1NXXNXXXXXX`
pub open spec fn e164_form(t: Seq<char>) -> Seq<char> {
    seq!['+', '1'] + t
}

/// Digits of a concatenation are the concatenation of the digits.
pub proof fn lemma_digits_concat(a: Seq<char>, b: Seq<char>)
    ensures
        digits_of(a + b) == digits_of(a) + digits_of(b),
    decreases b.len(),
{
    if b.len() == 0 {
        assert(a + b =~= a);
        assert(digits_of(a) + digits_of(b) =~= digits_of(a));
    } else {
        assert((a + b).drop_last() =~= a + b.drop_last());
        lemma_digits_concat(a, b.drop_last());
        if is_digit(b.last()) {
            assert(digits_of(a) + digits_of(b) =~= (digits_of(a) + digits_of(b.drop_last())).push(b.last()));
        }
    }
}

/// A string of digits is its own digit string.
pub proof fn lemma_digits_of_digits(t: Seq<char>)
    requires
        forall|i: int| 0 <= i < t.len() ==> is_digit(#[trigger] t[i]),
    ensures
        digits_of(t) == t,
    decreases t.len(),
{
    if t.len() > 0 {
        lemma_digits_of_digits(t.drop_last());
        assert(t.drop_last().push(t.last()) =~= t);
    }
}

proof fn lemma_digits_of_separators(t: Seq<char>)
    requires
        forall|i: int| 0 <= i < t.len() ==> !is_digit(#[trigger] t[i]),
    ensures
        digits_of(t) == Seq::<char>::empty(),
    decreases t.len(),
{
    if t.len() > 0 {
        lemma_digits_of_separators(t.drop_last());
    }
}

/// The four common ways of writing a valid number (plain, dashed,
/// parenthesized, and with the leading `+1`) all parse to the same canonical
/// `+1NXXNXXXXXX`.
pub proof fn lemma_formats_agree(t: Seq<char>)
    requires
        is_valid_ten(t),
    ensures
        parse_outcome(t) == Ok::<Seq<char>, PhoneRejection>(seq!['+', '1'] + t),
        parse_outcome(dashed_form(t)) == parse_outcome(t),
        parse_outcome(parenthesized_form(t)) == parse_outcome(t),
        parse_outcome(e164_form(t)) == parse_outcome(t),
{
    let a = t.subrange(0, 3);
    let b = t.subrange(3, 6);
    let c = t.subrange(6, 10);
    lemma_digits_of_digits(t);
    lemma_digits_of_digits(a);
    lemma_digits_of_digits(b);
    lemma_digits_of_digits(c);
    lemma_digits_of_separators(seq!['-']);
    lemma_digits_of_separators(seq!['(']);
    lemma_digits_of_separators(seq![')', ' ']);
    lemma_digits_of_separators(seq!['+']);
    assert(a + b + c =~= t);
    lemma_digits_concat(a, seq!['-']);
    lemma_digits_concat(a + seq!['-'], b);
    lemma_digits_concat(a + seq!['-'] + b, seq!['-']);
    lemma_digits_concat(a + seq!['-'] + b + seq!['-'], c);
    assert(digits_of(dashed_form(t)) =~= t);
    lemma_digits_concat(seq!['('], a);
    lemma_digits_concat(seq!['('] + a, seq![')', ' ']);
    lemma_digits_concat(seq!['('] + a + seq![')', ' '], b);
    lemma_digits_concat(seq!['('] + a + seq![')', ' '] + b, seq!['-']);
    lemma_digits_concat(seq!['('] + a + seq![')', ' '] + b + seq!['-'], c);
    assert(digits_of(parenthesized_form(t)) =~= t);
    lemma_digits_concat(seq!['+'], seq!['1']);
    lemma_digits_of_digits(seq!['1']);
    assert(seq!['+'] + seq!['1'] =~= seq!['+', '1']);
    lemma_digits_concat(seq!['+', '1'], t);
    let e = digits_of(e164_form(t));
    assert(e =~= seq!['1'] + t);
    assert(e.drop_first() =~= t);
}

/// Whenever the digits are neither ten nor eleven led by `1`, parsing fails with
/// the number of digits found.
pub proof fn lemma_wrong_count_rejected(s: Seq<char>)
    requires
        digits_of(s).len() != 10,
        !(digits_of(s).len() == 11 && digits_of(s)[0] == '1'),
    ensures
        parse_outcome(s) == Err::<Seq<char>, PhoneRejection>(PhoneRejection::DigitCount(digits_of(s).len() as usize)),
{
}

/// Whenever the area code starts with `0` or `1`, parsing fails naming the area
/// code; otherwise, whenever the exchange does, it fails naming the exchange.
pub proof fn lemma_leading_digit_rejected(s: Seq<char>, ten: Seq<char>)
    requires
        national_digits(digits_of(s)) == Some(ten),
    ensures
        (ten[0] == '0' || ten[0] == '1') ==> parse_outcome(s) == Err::<Seq<char>, PhoneRejection>(PhoneRejection::AreaCode),
        (ten[0] != '0' && ten[0] != '1' && (ten[3] == '0' || ten[3] == '1')) ==> parse_outcome(s) == Err::<Seq<char>, PhoneRejection>(PhoneRejection::Exchange),
{
}

} // verus!
