use vstd::prelude::*;

verus! {

/// The reserved file name of the main continuous recording.
pub const MAIN_RECORDING_FILE_NAME: &'static str = "main_recording.wav";

/// The file extension of every recording.
pub const WAV_EXTENSION: &'static str = ".wav";

/// Which file a recording is written to.
#[derive(Clone, Copy, Debug, PartialEq, Eq, Structural)]
pub enum RecordingTarget {
    /// The main continuous recording, under the reserved name.
    Main,
    /// An ad-hoc recording started at the given second since the Unix epoch.
    AdHoc(u64),
}

pub open spec fn digit_char(d: nat) -> char {
    if d == 0 { '0' }
    else if d == 1 { '1' }
    else if d == 2 { '2' }
    else if d == 3 { '3' }
    else if d == 4 { '4' }
    else if d == 5 { '5' }
    else if d == 6 { '6' }
    else if d == 7 { '7' }
    else if d == 8 { '8' }
    else { '9' }
}

pub open spec fn is_digit(c: char) -> bool {
    '0' <= c && c <= '9'
}

/// The decimal digits of a number, most significant first, without leading zeros.
pub open spec fn decimal(n: nat) -> Seq<char>
    decreases n,
{
    if n < 10 {
        seq![digit_char(n)]
    } else {
        decimal(n / 10).push(digit_char(n % 10))
    }
}

/// The file name of a recording target.
pub open spec fn target_name_spec(t: RecordingTarget) -> Seq<char> {
    match t {
        RecordingTarget::Main => MAIN_RECORDING_FILE_NAME@,
        RecordingTarget::AdHoc(secs) => decimal(secs as nat) + WAV_EXTENSION@,
    }
}

fn digit_str(d: u64) -> (r: &'static str)
    requires
        d < 10,
    ensures
        r@ == seq![digit_char(d as nat)],
{
    proof {
        reveal_strlit("0");
        reveal_strlit("1");
        reveal_strlit("2");
        reveal_strlit("3");
        reveal_strlit("4");
        reveal_strlit("5");
        reveal_strlit("6");
        reveal_strlit("7");
        reveal_strlit("8");
        reveal_strlit("9");
    }
    if d == 0 { "0" }
    else if d == 1 { "1" }
    else if d == 2 { "2" }
    else if d == 3 { "3" }
    else if d == 4 { "4" }
    else if d == 5 { "5" }
    else if d == 6 { "6" }
    else if d == 7 { "7" }
    else if d == 8 { "8" }
    else { "9" }
}

/// The decimal representation of a number.
pub fn decimal_string(n: u64) -> (r: String)
    ensures
        r@ == decimal(n as nat),
{
    let mut m: u64 = n;
    let mut s = String::new();
    loop
        invariant
            decimal(n as nat) == decimal(m as nat) + s@,
        decreases m,
    {
        let d: u64 = m % 10;
        let t = String::from_str(digit_str(d)).concat(s.as_str());
        if m < 10 {
            assert(decimal(m as nat) == seq![digit_char(m as nat)]);
            return t;
        }
        assert(decimal(m as nat) == decimal((m / 10) as nat).push(digit_char(d as nat)));
        assert(decimal(m as nat) + s@ == decimal((m / 10) as nat) + t@);
        s = t;
        m = m / 10;
    }
}

/// The name of an ad-hoc recording started at `unix_secs`: the seconds since
/// the epoch in decimal, followed by `.wav`.
pub fn recording_file_name(unix_secs: u64) -> (r: String)
    ensures
        r@ == decimal(unix_secs as nat) + WAV_EXTENSION@,
{
    decimal_string(unix_secs).concat(WAV_EXTENSION)
}

impl RecordingTarget {
    /// The file name that a recording of this target is written under.
    pub fn file_name(&self) -> (r: String)
        ensures
            r@ == target_name_spec(*self),
    {
        match self {
            RecordingTarget::Main => String::from_str(MAIN_RECORDING_FILE_NAME),
            RecordingTarget::AdHoc(secs) => recording_file_name(*secs),
        }
    }
}

proof fn lemma_digit_char(d: nat)
    requires
        d < 10,
    ensures
        is_digit(digit_char(d)),
        forall|e: nat| e < 10 && digit_char(e) == digit_char(d) ==> e == d,
{
}

/// A decimal representation has at least one digit, two from ten on, and
/// only digits.
pub proof fn lemma_decimal_shape(n: nat)
    ensures
        decimal(n).len() >= 1,
        n >= 10 ==> decimal(n).len() >= 2,
        forall|i: int| 0 <= i < decimal(n).len() ==> is_digit(#[trigger] decimal(n)[i]),
    decreases n,
{
    lemma_digit_char(n % 10);
    if n >= 10 {
        lemma_decimal_shape(n / 10);
        assert forall|i: int| 0 <= i < decimal(n).len() implies is_digit(#[trigger] decimal(n)[i]) by {
            if i < decimal(n).len() - 1 {
                assert(decimal(n)[i] == decimal(n / 10)[i]);
            }
        }
    }
}

proof fn lemma_decimal_injective(a: nat, b: nat)
    requires
        decimal(a) == decimal(b),
    ensures
        a == b,
    decreases a,
{
    lemma_decimal_shape(a);
    lemma_decimal_shape(b);
    lemma_digit_char(a % 10);
    lemma_digit_char(b % 10);
    if a >= 10 && b >= 10 {
        assert(decimal(a).last() == digit_char(a % 10));
        assert(decimal(b).last() == digit_char(b % 10));
        assert(decimal(a / 10) == decimal(a).drop_last());
        assert(decimal(b / 10) == decimal(b).drop_last());
        lemma_decimal_injective(a / 10, b / 10);
    } else if a < 10 && b < 10 {
        assert(decimal(a)[0] == digit_char(a));
        assert(decimal(b)[0] == digit_char(b));
    }
}

/// Ad-hoc recordings started at different seconds get different file names,
/// and no ad-hoc name is the reserved name of the main recording.
pub proof fn lemma_adhoc_names_distinct(a: u64, b: u64)
    ensures
        a != b ==> target_name_spec(RecordingTarget::AdHoc(a)) != target_name_spec(
            RecordingTarget::AdHoc(b),
        ),
        target_name_spec(RecordingTarget::AdHoc(a)) != target_name_spec(RecordingTarget::Main),
{
    reveal_strlit(".wav");
    reveal_strlit("main_recording.wav");
    let na = target_name_spec(RecordingTarget::AdHoc(a));
    let nb = target_name_spec(RecordingTarget::AdHoc(b));
    if a != b && na == nb {
        let da = decimal(a as nat);
        let db = decimal(b as nat);
        assert(WAV_EXTENSION@.len() == 4);
        assert(na.len() == da.len() + 4);
        assert(nb.len() == db.len() + 4);
        assert(da.len() == db.len());
        assert(da == na.subrange(0, da.len() as int));
        assert(db == nb.subrange(0, db.len() as int));
        lemma_decimal_injective(a as nat, b as nat);
    }
    lemma_decimal_shape(a as nat);
    assert(na[0] == decimal(a as nat)[0]);
    assert(MAIN_RECORDING_FILE_NAME@[0] == 'm');
}

} // verus!
