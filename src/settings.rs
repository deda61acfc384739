//! Persisted daemon settings: the volume and brightness record, its clamped
//! updates, and the whole-file text it is saved as.
use vstd::prelude::*;

verus! {

/// Largest volume step.
pub const MAX_VOLUME: i32 = 20;

/// Largest brightness percentage.
pub const MAX_BRIGHTNESS: u8 = 100;

/// Volume and brightness as they are persisted across restarts.
#[derive(Clone, Copy, Debug, PartialEq, Eq, Structural)]
pub struct DaemonState {
    pub volume: i32,
    pub brightness: u8,
}

/// `v` forced into `[lo, hi]`.
pub open spec fn clamp(v: int, lo: int, hi: int) -> int {
    if v < lo {
        lo
    } else if v > hi {
        hi
    } else {
        v
    }
}

impl DaemonState {
    /// Both values lie in their ranges.
    pub open spec fn wf(&self) -> bool {
        0 <= self.volume <= MAX_VOLUME && self.brightness <= MAX_BRIGHTNESS
    }

    /// Settings used when nothing valid was persisted: silent, half bright.
    pub fn new() -> (r: DaemonState)
        ensures
            r.volume == 0,
            r.brightness == 50,
            r.wf(),
    {
        DaemonState { volume: 0, brightness: 50 }
    }

    /// Moves the volume by `add` steps, clamped into `[0, MAX_VOLUME]`.
    pub fn add_volume(&mut self, add: i32)
        ensures
            final(self).volume == clamp(old(self).volume + add, 0, MAX_VOLUME as int),
            final(self).brightness == old(self).brightness,
            0 <= final(self).volume <= MAX_VOLUME,
            old(self).wf() ==> final(self).wf(),
            old(self).wf() && add == 0 ==> *final(self) == *old(self),
    {
        let sum: i64 = self.volume as i64 + add as i64;
        self.volume = if sum < 0 {
            0
        } else if sum > MAX_VOLUME as i64 {
            MAX_VOLUME
        } else {
            sum as i32
        };
    }

    /// Moves the brightness by `add` percent, clamped into `[0, MAX_BRIGHTNESS]`.
    pub fn add_brightness(&mut self, add: i8)
        ensures
            final(self).brightness == clamp(old(self).brightness + add, 0, MAX_BRIGHTNESS as int),
            final(self).volume == old(self).volume,
            final(self).brightness <= MAX_BRIGHTNESS,
            old(self).wf() ==> final(self).wf(),
            old(self).wf() && add == 0 ==> *final(self) == *old(self),
    {
        let sum: i16 = self.brightness as i16 + add as i16;
        self.brightness = if sum < 0 {
            0
        } else if sum > MAX_BRIGHTNESS as i16 {
            MAX_BRIGHTNESS
        } else {
            sum as u8
        };
    }
}

/// Whether `c` is an ASCII decimal digit.
pub open spec fn is_digit(c: u8) -> bool {
    48 <= c <= 57
}

/// Shortest decimal spelling of `n` in ASCII digits.
pub open spec fn decimal(n: nat) -> Seq<u8>
    decreases n,
{
    if n < 10 {
        seq![(n + 48) as u8]
    } else {
        decimal(n / 10).push((n % 10 + 48) as u8)
    }
}

/// Number spelled by the ASCII digits `d`, most significant first.
pub open spec fn digits_value(d: Seq<u8>) -> int
    decreases d.len(),
{
    if d.len() == 0 {
        0
    } else {
        digits_value(d.drop_last()) * 10 + (d.last() - 48)
    }
}

/// `{"volume":`
pub open spec fn volume_key() -> Seq<u8> {
    seq![123u8, 34, 118, 111, 108, 117, 109, 101, 34, 58]
}

/// `,"brightness":`
pub open spec fn brightness_key() -> Seq<u8> {
    seq![44u8, 34, 98, 114, 105, 103, 104, 116, 110, 101, 115, 115, 34, 58]
}

/// The settings file's content for `s`: a JSON object
/// `{"volume":V,"brightness":B}` without whitespace.
pub open spec fn settings_text(s: DaemonState) -> Seq<u8> {
    volume_key() + decimal(s.volume as nat) + brightness_key() + decimal(s.brightness as nat)
        + seq![125u8]
}
/// JSON whitespace: space, tab, line feed, carriage return.
pub open spec fn is_ws(c: u8) -> bool {
    c == 32 || c == 9 || c == 10 || c == 13
}

/// First index at or after `i` that holds no whitespace.
pub open spec fn skip_ws(b: Seq<u8>, i: int) -> int
    decreases b.len() - i,
{
    if 0 <= i < b.len() && is_ws(b[i]) {
        skip_ws(b, i + 1)
    } else {
        i
    }
}

/// First index at or after `i` that holds no digit.
pub open spec fn digits_end(b: Seq<u8>, i: int) -> int
    decreases b.len() - i,
{
    if 0 <= i < b.len() && is_digit(b[i]) {
        digits_end(b, i + 1)
    } else {
        i
    }
}

/// `b` holds byte `c` at index `i`.
pub open spec fn byte_is(b: Seq<u8>, i: int, c: u8) -> bool {
    0 <= i < b.len() && b[i] == c
}

/// The non-negative JSON integer written at `i` (digits, no leading zero):
/// its value and the index just past it.
pub open spec fn number_at(b: Seq<u8>, i: int) -> Option<(int, int)> {
    let e = digits_end(b, i);
    if e == i || (b[i] == 48 && e > i + 1) {
        None
    } else {
        Some((digits_value(b.subrange(i, e)), e))
    }
}

/// `"volume"`, quotes included.
pub open spec fn volume_name() -> Seq<u8> {
    seq![34u8, 118, 111, 108, 117, 109, 101, 34]
}

/// `"brightness"`, quotes included.
pub open spec fn brightness_name() -> Seq<u8> {
    seq![34u8, 98, 114, 105, 103, 104, 116, 110, 101, 115, 115, 34]
}

/// `b` holds `lit` from index `i` on.
pub open spec fn holds_at(b: Seq<u8>, i: int, lit: Seq<u8>) -> bool {
    0 <= i && i + lit.len() <= b.len() && b.subrange(i, i + lit.len()) == lit
}

/// The field named at `i` (0 for volume, 1 for brightness) and the index
/// just past its name.
pub open spec fn field_name_at(b: Seq<u8>, i: int) -> Option<(int, int)> {
    if holds_at(b, i, volume_name()) {
        Some((0, i + 8))
    } else if holds_at(b, i, brightness_name()) {
        Some((1, i + 12))
    } else {
        None
    }
}

/// The member `"name" : number` at `i`: its field, its value and the index
/// just past it.
pub open spec fn member_at(b: Seq<u8>, i: int) -> Option<(int, int, int)> {
    match field_name_at(b, i) {
        None => None,
        Some((f, j)) => {
            let k = skip_ws(b, j);
            if byte_is(b, k, 58) {
                match number_at(b, skip_ws(b, k + 1)) {
                    None => None,
                    Some((v, e)) => Some((f, v, e)),
                }
            } else {
                None
            }
        },
    }
}

/// What a settings file holding `b` is read as: a JSON object with exactly
/// the members `"volume"` and `"brightness"`, in either order, whitespace
/// allowed between tokens, each a non-negative integer within its range.
/// Anything else reads as `None`.
pub open spec fn parse_settings(b: Seq<u8>) -> Option<DaemonState> {
    let o = skip_ws(b, 0);
    if !byte_is(b, o, 123) {
        None
    } else {
        match member_at(b, skip_ws(b, o + 1)) {
            None => None,
            Some((f1, v1, e1)) => {
                let c = skip_ws(b, e1);
                if !byte_is(b, c, 44) {
                    None
                } else {
                    match member_at(b, skip_ws(b, c + 1)) {
                        None => None,
                        Some((f2, v2, e2)) => {
                            let z = skip_ws(b, e2);
                            if !byte_is(b, z, 125) || skip_ws(b, z + 1) != b.len() || f1 == f2 {
                                None
                            } else {
                                let (volume, brightness) = if f1 == 0 {
                                    (v1, v2)
                                } else {
                                    (v2, v1)
                                };
                                if 0 <= volume <= MAX_VOLUME && 0 <= brightness <= MAX_BRIGHTNESS {
                                    Some(DaemonState { volume: volume as i32, brightness: brightness as u8 })
                                } else {
                                    None
                                }
                            }
                        },
                    }
                }
            },
        }
    }
}

/// Each byte of `d` is a digit.
pub open spec fn all_digits(d: Seq<u8>) -> bool {
    forall|i: int| 0 <= i < d.len() ==> is_digit(#[trigger] d[i])
}

/// The spelling of `n` is one to three digits that read back as `n`, and
/// it starts with a zero only when it is `0`.
pub proof fn lemma_decimal(n: nat)
    ensures
        all_digits(decimal(n)),
        digits_value(decimal(n)) == n,
        1 <= decimal(n).len(),
        n < 10 ==> decimal(n).len() == 1,
        n < 100 ==> decimal(n).len() <= 2,
        n < 1000 ==> decimal(n).len() <= 3,
        decimal(n)[0] == 48 ==> n == 0,
    decreases n,
{
    if n >= 10 {
        lemma_decimal(n / 10);
        let d = decimal(n);
        assert(d.drop_last() =~= decimal(n / 10));
        assert(d[0] == decimal(n / 10)[0]);
        assert forall|i: int| 0 <= i < d.len() implies is_digit(#[trigger] d[i]) by {
            if i < d.len() - 1 {
                assert(d[i] == decimal(n / 10)[i]);
            }
        }
        assert(d.last() == n % 10 + 48);
        assert(digits_value(d) == digits_value(decimal(n / 10)) * 10 + n % 10);
    } else {
        let d = decimal(n);
        assert(is_digit(d[0]));
        assert(d.drop_last() =~= Seq::<u8>::empty());
        assert(digits_value(d.drop_last()) == 0);
    }
}

/// Appends the spelling of `n`.
fn push_decimal(out: &mut Vec<u8>, n: u8)
    ensures
        final(out)@ == old(out)@ + decimal(n as nat),
{
    proof {
        reveal_with_fuel(decimal, 3);
    }
    if n >= 100 {
        out.push(n / 100 + 48);
        out.push(n / 10 % 10 + 48);
        assert(decimal((n / 10) as nat) == seq![(n / 100 + 48) as u8, (n / 10 % 10 + 48) as u8]);
    } else if n >= 10 {
        out.push(n / 10 + 48);
    }
    out.push(n % 10 + 48);
    assert(final(out)@ =~= old(out)@ + decimal(n as nat));
}

impl DaemonState {
    /// The bytes this record is saved as.
    pub fn encode(&self) -> (r: Vec<u8>)
        requires
            self.wf(),
        ensures
            r@ == settings_text(*self),
    {
        let mut out: Vec<u8> = vec![123u8, 34, 118, 111, 108, 117, 109, 101, 34, 58];
        push_decimal(&mut out, self.volume as u8);
        let mut key: Vec<u8> = vec![44u8, 34, 98, 114, 105, 103, 104, 116, 110, 101, 115, 115, 34, 58];
        out.append(&mut key);
        push_decimal(&mut out, self.brightness);
        out.push(125u8);
        assert(out@ =~= settings_text(*self));
        out
    }
}

/// `v`, or 1000 if it is larger.
spec fn capped(v: int) -> int {
    if v < 1000 {
        v
    } else {
        1000
    }
}

/// Index of the first byte at or after `i` that is no whitespace.
fn skip_whitespace(b: &[u8], i: usize) -> (r: usize)
    requires
        i <= b@.len(),
    ensures
        r == skip_ws(b@, i as int),
        i <= r <= b@.len(),
{
    let mut j: usize = i;
    while j < b.len() && (b[j] == 32 || b[j] == 9 || b[j] == 10 || b[j] == 13)
        invariant
            i <= j <= b@.len(),
            skip_ws(b@, j as int) == skip_ws(b@, i as int),
        decreases b@.len() - j,
    {
        j = j + 1;
    }
    j
}

/// The number written at `i`, its value capped at 1000.
fn read_number(b: &[u8], i: usize) -> (r: Option<(u32, usize)>)
    requires
        i <= b@.len(),
    ensures
        match number_at(b@, i as int) {
            None => r is None,
            Some((v, e)) => r == Some((capped(v) as u32, e as usize)),
        },
        r matches Some((_, e)) ==> i <= e <= b@.len(),
        number_at(b@, i as int) matches Some((v, e)) ==> v >= 0 && i <= e <= b@.len(),
{
    let mut v: u32 = 0;
    let mut j: usize = i;
    while j < b.len() && 48 <= b[j] && b[j] <= 57
        invariant
            i <= j <= b@.len(),
            digits_end(b@, j as int) == digits_end(b@, i as int),
            digits_value(b@.subrange(i as int, j as int)) >= 0,
            v == capped(digits_value(b@.subrange(i as int, j as int))),
        decreases b@.len() - j,
    {
        let ghost prev = b@.subrange(i as int, j as int);
        if v < 1000 {
            v = v * 10 + (b[j] - 48) as u32;
            if v > 1000 {
                v = 1000;
            }
        }
        j = j + 1;
        let ghost next = b@.subrange(i as int, j as int);
        assert(next.drop_last() =~= prev);
    }
    if j == i || (b[i] == 48 && j > i + 1) {
        None
    } else {
        Some((v, j))
    }
}

/// Whether `b` holds `lit` from index `i` on.
fn bytes_at(b: &[u8], i: usize, lit: &[u8]) -> (r: bool)
    requires
        i <= b@.len(),
    ensures
        r == holds_at(b@, i as int, lit@),
{
    let n = b.len();
    if lit.len() > n - i {
        return false;
    }
    let mut k: usize = 0;
    while k < lit.len()
        invariant
            n == b@.len(),
            i <= n,
            i + lit@.len() <= n,
            k <= lit@.len(),
            forall|m: int| 0 <= m < k ==> b@[i + m] == lit@[m],
        decreases lit@.len() - k,
    {
        if b[i + k] != lit[k] {
            assert(b@.subrange(i as int, i + lit@.len())[k as int] != lit@[k as int]);
            return false;
        }
        k = k + 1;
    }
    assert(b@.subrange(i as int, i + lit@.len()) =~= lit@);
    true
}

/// The member written at `i`: field (0 volume, 1 brightness), value capped
/// at 1000, and the index just past it.
fn read_member(b: &[u8], i: usize) -> (r: Option<(u8, u32, usize)>)
    requires
        i <= b@.len(),
    ensures
        match member_at(b@, i as int) {
            None => r is None,
            Some((f, v, e)) => r == Some((f as u8, capped(v) as u32, e as usize)),
        },
        r matches Some((_, _, e)) ==> i <= e <= b@.len(),
        member_at(b@, i as int) matches Some((_, v, e)) ==> v >= 0 && i <= e <= b@.len(),
{
    let volume: Vec<u8> = vec![34u8, 118, 111, 108, 117, 109, 101, 34];
    let brightness: Vec<u8> = vec![34u8, 98, 114, 105, 103, 104, 116, 110, 101, 115, 115, 34];
    let n = b.len();
    let volume = volume.as_slice();
    let brightness = brightness.as_slice();
    assert(volume@ =~= volume_name());
    assert(brightness@ =~= brightness_name());
    let (field, j) = if bytes_at(b, i, volume) {
        (0u8, i + 8)
    } else if bytes_at(b, i, brightness) {
        (1u8, i + 12)
    } else {
        return None;
    };
    let k = skip_whitespace(b, j);
    if k >= b.len() || b[k] != 58 {
        return None;
    }
    let m = skip_whitespace(b, k + 1);
    match read_number(b, m) {
        None => None,
        Some((v, e)) => Some((field, v, e)),
    }
}

impl DaemonState {
    /// Reads a settings file's bytes back: the record they hold, or `None`
    /// for anything that is not such a record (truncated, corrupt, out of
    /// range, missing or unknown members).
    pub fn decode(bytes: &[u8]) -> (r: Option<DaemonState>)
        ensures
            r == parse_settings(bytes@),
    {
        let o = skip_whitespace(bytes, 0);
        if o >= bytes.len() || bytes[o] != 123 {
            return None;
        }
        let i1 = skip_whitespace(bytes, o + 1);
        let (f1, v1, e1) = match read_member(bytes, i1) {
            None => return None,
            Some(m) => m,
        };
        let c = skip_whitespace(bytes, e1);
        if c >= bytes.len() || bytes[c] != 44 {
            return None;
        }
        let i2 = skip_whitespace(bytes, c + 1);
        let (f2, v2, e2) = match read_member(bytes, i2) {
            None => return None,
            Some(m) => m,
        };
        let z = skip_whitespace(bytes, e2);
        if z >= bytes.len() || bytes[z] != 125 {
            return None;
        }
        if skip_whitespace(bytes, z + 1) != bytes.len() || f1 == f2 {
            return None;
        }
        let (volume, brightness) = if f1 == 0 {
            (v1, v2)
        } else {
            (v2, v1)
        };
        if volume <= MAX_VOLUME as u32 && brightness <= MAX_BRIGHTNESS as u32 {
            Some(DaemonState { volume: volume as i32, brightness: brightness as u8 })
        } else {
            None
        }
    }
}

/// A run of `n` digits at `i` that is followed by no digit ends at `i + n`.
proof fn lemma_digits_end(b: Seq<u8>, i: int, n: int)
    requires
        0 <= i,
        0 <= n,
        i + n <= b.len(),
        forall|k: int| i <= k < i + n ==> is_digit(#[trigger] b[k]),
        i + n == b.len() || !is_digit(b[i + n]),
    ensures
        digits_end(b, i) == i + n,
    decreases n,
{
    if n > 0 {
        lemma_digits_end(b, i + 1, n - 1);
    }
}

/// Saving a valid record and reading the text back yields the same record.
pub proof fn lemma_round_trip(s: DaemonState)
    requires
        s.wf(),
    ensures
        parse_settings(settings_text(s)) == Some(s),
{
    let a = decimal(s.volume as nat);
    let c = decimal(s.brightness as nat);
    lemma_decimal(s.volume as nat);
    lemma_decimal(s.brightness as nat);
    let t = settings_text(s);
    let la = a.len() as int;
    let lc = c.len() as int;
    assert(t[0] == 123);
    assert(skip_ws(t, 0) == 0);
    assert(t[1] == 34);
    assert(skip_ws(t, 1) == 1);
    assert(t.subrange(1, 9) =~= volume_name());
    assert(t[9] == 58);
    assert(skip_ws(t, 9) == 9);
    assert forall|k: int| 10 <= k < 10 + la implies is_digit(#[trigger] t[k]) by {
        assert(t[k] == a[k - 10]);
    }
    assert(t[10] == a[0]);
    assert(skip_ws(t, 10) == 10);
    assert(t[10 + la] == 44);
    lemma_digits_end(t, 10, la);
    assert(t.subrange(10, 10 + la) =~= a);
    assert(skip_ws(t, 10 + la) == 10 + la);
    let m = 11 + la;
    assert(t[m] == 34);
    assert(skip_ws(t, m) == m);
    assert(t[m + 1] == 98);
    assert(t.subrange(m, m + 8)[1] != volume_name()[1]);
    assert(t.subrange(m, m + 12) =~= brightness_name());
    assert(t[m + 12] == 58);
    assert(skip_ws(t, m + 12) == m + 12);
    let o = m + 13;
    assert forall|k: int| o <= k < o + lc implies is_digit(#[trigger] t[k]) by {
        assert(t[k] == c[k - o]);
    }
    assert(t[o] == c[0]);
    assert(skip_ws(t, o) == o);
    assert(t[o + lc] == 125);
    lemma_digits_end(t, o, lc);
    assert(t.subrange(o, o + lc) =~= c);
    assert(skip_ws(t, o + lc) == o + lc);
    assert(t.len() == o + lc + 1);
    assert(skip_ws(t, o + lc + 1) == t.len());
}

/// Settings in force after startup, from the settings file's content
/// (`None`: there is no file), and whether the file must be removed.
pub open spec fn restored(contents: Option<Seq<u8>>) -> (DaemonState, bool) {
    let default = DaemonState { volume: 0, brightness: 50 };
    match contents {
        None => (default, false),
        Some(b) => match parse_settings(b) {
            Some(s) => (s, false),
            None => (default, true),
        },
    }
}

/// Settings to start with: those saved in the file, or the defaults when
/// there is none; a file that does not hold a valid record is to be removed
/// and the defaults used. An unreadable file is handed in as empty content.
pub fn restore(contents: Option<&[u8]>) -> (r: (DaemonState, bool))
    ensures
        r == restored(
            match contents {
                Some(b) => Some(b@),
                None => None,
            },
        ),
        r.0.wf(),
{
    match contents {
        None => (DaemonState::new(), false),
        Some(b) => match DaemonState::decode(b) {
            Some(s) => (s, false),
            None => (DaemonState::new(), true),
        },
    }
}

} // verus!
