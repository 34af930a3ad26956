//! The minimal `printf`-style formatter behind the image's formatting
//! imports. A format is read into directives that name the argument slots
//! they consume; the integer directives are rendered here, and the pieces are
//! joined and cut to the destination's capacity.

use vstd::prelude::*;

verus! {

/// One piece of a format: a literal byte or a conversion of an argument.
#[derive(Debug, Clone, Copy, PartialEq, Eq, Structural)]
pub enum Directive {
    /// A byte copied as is.
    Literal(u8),
    /// `%%`.
    Percent,
    /// `%s`: the NUL-terminated string at the address in slot `k`.
    Str(usize),
    /// `%d`, `%i`: slot `k` as a signed decimal.
    Signed(usize),
    /// `%u`: slot `k` as an unsigned decimal.
    Unsigned(usize),
    /// `%x`: slot `k` in lowercase hexadecimal.
    HexLower(usize),
    /// `%X`: slot `k` in uppercase hexadecimal.
    HexUpper(usize),
    /// `%p`: slot `k` as sixteen uppercase hexadecimal digits.
    Pointer(usize),
    /// `%c`: the low byte of slot `k`.
    Char(usize),
    /// `%f`, `%e`, `%g` and their capitals: slot `k` as the bits of a double.
    Float(usize),
}

pub open spec fn is_flag(c: u8) -> bool {
    c == 45 || c == 43 || c == 32 || c == 35 || c == 48
}

pub open spec fn is_digit(c: u8) -> bool {
    48 <= c <= 57
}

pub open spec fn is_length(c: u8) -> bool {
    c == 104 || c == 108 || c == 76 || c == 122 || c == 106 || c == 116 || c == 73
}

/// The position after the flags starting at `i`.
pub open spec fn skip_flags(f: Seq<u8>, i: int) -> int
    decreases f.len() - i,
{
    if 0 <= i < f.len() && is_flag(f[i]) {
        skip_flags(f, i + 1)
    } else {
        i
    }
}

/// The position after the digits starting at `i`.
pub open spec fn skip_digits(f: Seq<u8>, i: int) -> int
    decreases f.len() - i,
{
    if 0 <= i < f.len() && is_digit(f[i]) {
        skip_digits(f, i + 1)
    } else {
        i
    }
}

/// The position after the length modifiers starting at `i` (h, l, L, z, j,
/// t, I, and digits following an I).
pub open spec fn skip_length(f: Seq<u8>, i: int) -> int
    decreases f.len() - i,
{
    if 1 <= i < f.len() && (is_length(f[i]) || (is_digit(f[i]) && f[i - 1] == 73)) {
        skip_length(f, i + 1)
    } else {
        i
    }
}

/// The position and next slot after a width at `i`: `*` takes a slot.
pub open spec fn after_width(f: Seq<u8>, i: int, k: nat) -> (int, nat) {
    if 0 <= i < f.len() && f[i] == 42 {
        (i + 1, k + 1)
    } else {
        (skip_digits(f, i), k)
    }
}

/// The position and next slot after a precision at `i`: `.*` takes a slot.
pub open spec fn after_precision(f: Seq<u8>, i: int, k: nat) -> (int, nat) {
    if 0 <= i < f.len() && f[i] == 46 {
        if i + 1 < f.len() && f[i + 1] == 42 {
            (i + 2, k + 1)
        } else {
            (skip_digits(f, i + 1), k)
        }
    } else {
        (i, k)
    }
}

/// The directive a conversion character makes from slot `k`; none for an
/// unknown character, which takes no slot.
pub open spec fn conversion(c: u8, k: nat) -> Option<Directive> {
    if c == 37 {
        Some(Directive::Percent)
    } else if c == 115 {
        Some(Directive::Str(k as usize))
    } else if c == 100 || c == 105 {
        Some(Directive::Signed(k as usize))
    } else if c == 117 {
        Some(Directive::Unsigned(k as usize))
    } else if c == 120 {
        Some(Directive::HexLower(k as usize))
    } else if c == 88 {
        Some(Directive::HexUpper(k as usize))
    } else if c == 112 {
        Some(Directive::Pointer(k as usize))
    } else if c == 99 {
        Some(Directive::Char(k as usize))
    } else if c == 102 || c == 70 || c == 101 || c == 69 || c == 103 || c == 71 {
        Some(Directive::Float(k as usize))
    } else {
        None
    }
}

/// The slots a directive takes.
pub open spec fn slots_of(d: Option<Directive>) -> nat {
    match d {
        Some(Directive::Percent) => 0,
        Some(_) => 1,
        None => 0,
    }
}

/// The directives of `f` from position `i` on, the next slot being `k`, and
/// the number of slots used in all. A `%` whose conversion is cut off by the
/// end of the format ends it.
pub open spec fn directives_from(f: Seq<u8>, i: int, k: nat) -> (Seq<Directive>, nat)
    decreases f.len() - i, 1int,
{
    if i < 0 || i >= f.len() {
        (Seq::empty(), k)
    } else if f[i] != 37 {
        let rest = directives_from(f, i + 1, k);
        (seq![Directive::Literal(f[i])] + rest.0, rest.1)
    } else {
        let j = skip_flags(f, i + 1);
        if j <= i || j > f.len() {
            (Seq::empty(), k)
        } else {
            directive_at(f, j, k)
        }
    }
}

/// The rest of a directive whose flags end at `j`.
pub open spec fn directive_at(f: Seq<u8>, j: int, k: nat) -> (Seq<Directive>, nat)
    decreases f.len() - j, 0int,
{
    if j <= 0 || j > f.len() {
        (Seq::empty(), k)
    } else {
        let w = after_width(f, j, k);
        let p = after_precision(f, w.0, w.1);
        let e = skip_length(f, p.0);
        if e >= f.len() || e < j {
            (Seq::empty(), p.1)
        } else {
            let d = conversion(f[e], p.1);
            let rest = directives_from(f, e + 1, p.1 + slots_of(d));
            match d {
                Some(x) => (seq![x] + rest.0, rest.1),
                None => rest,
            }
        }
    }
}

fn skip_flags_at(f: &[u8], i: usize) -> (r: usize)
    requires
        i <= f@.len(),
    ensures
        r == skip_flags(f@, i as int),
        i <= r <= f@.len(),
{
    let mut j = i;
    while j < f.len() && (f[j] == 45 || f[j] == 43 || f[j] == 32 || f[j] == 35 || f[j] == 48)
        invariant
            i <= j <= f@.len(),
            skip_flags(f@, j as int) == skip_flags(f@, i as int),
        decreases f@.len() - j,
    {
        j = j + 1;
    }
    j
}

fn skip_digits_at(f: &[u8], i: usize) -> (r: usize)
    requires
        i <= f@.len(),
    ensures
        r == skip_digits(f@, i as int),
        i <= r <= f@.len(),
{
    let mut j = i;
    while j < f.len() && 48 <= f[j] && f[j] <= 57
        invariant
            i <= j <= f@.len(),
            skip_digits(f@, j as int) == skip_digits(f@, i as int),
        decreases f@.len() - j,
    {
        j = j + 1;
    }
    j
}

fn skip_length_at(f: &[u8], i: usize) -> (r: usize)
    requires
        1 <= i <= f@.len(),
    ensures
        r == skip_length(f@, i as int),
        i <= r <= f@.len(),
{
    let mut j = i;
    while j < f.len() && (f[j] == 104 || f[j] == 108 || f[j] == 76 || f[j] == 122 || f[j] == 106
        || f[j] == 116 || f[j] == 73 || (48 <= f[j] && f[j] <= 57 && f[j - 1] == 73))
        invariant
            1 <= i <= j <= f@.len(),
            skip_length(f@, j as int) == skip_length(f@, i as int),
        decreases f@.len() - j,
    {
        j = j + 1;
    }
    j
}

fn conversion_of(c: u8, k: usize) -> (r: Option<Directive>)
    ensures
        r == conversion(c, k as nat),
{
    if c == 37 {
        Some(Directive::Percent)
    } else if c == 115 {
        Some(Directive::Str(k))
    } else if c == 100 || c == 105 {
        Some(Directive::Signed(k))
    } else if c == 117 {
        Some(Directive::Unsigned(k))
    } else if c == 120 {
        Some(Directive::HexLower(k))
    } else if c == 88 {
        Some(Directive::HexUpper(k))
    } else if c == 112 {
        Some(Directive::Pointer(k))
    } else if c == 99 {
        Some(Directive::Char(k))
    } else if c == 102 || c == 70 || c == 101 || c == 69 || c == 103 || c == 71 {
        Some(Directive::Float(k))
    } else {
        None
    }
}

/// Reads a format into its directives, with the number of argument slots
/// they use: flags, widths, precisions and length modifiers are skipped (a
/// `*` width or precision takes a slot), an unknown conversion is dropped,
/// and a `%` cut off by the end of the format ends it.
pub fn parse_format(f: &[u8]) -> (r: (Vec<Directive>, usize))
    ensures
        r.0@ == directives_from(f@, 0, 0).0,
        r.1 == directives_from(f@, 0, 0).1,
{
    let n = f.len();
    let mut out: Vec<Directive> = Vec::new();
    let mut i: usize = 0;
    let mut k: usize = 0;
    assert(out@ + directives_from(f@, 0, 0).0 =~= directives_from(f@, 0, 0).0);
    while i < n
        invariant
            n == f@.len(),
            i <= n,
            k <= i,
            out@ + directives_from(f@, i as int, k as nat).0 == directives_from(f@, 0, 0).0,
            directives_from(f@, i as int, k as nat).1 == directives_from(f@, 0, 0).1,
        decreases n - i,
    {
        if f[i] != 37 {
            let ghost before = out@;
            out.push(Directive::Literal(f[i]));
            assert(before + directives_from(f@, i as int, k as nat).0 =~= out@ + directives_from(
                f@,
                i + 1,
                k as nat,
            ).0);
            i = i + 1;
        } else {
            let ghost k0 = k as nat;
            let ghost before = out@;
            let j = skip_flags_at(f, i + 1);
            assert(directives_from(f@, i as int, k0) == directive_at(f@, j as int, k0));
            let mut w = j;
            let mut kw = k;
            if j < n && f[j] == 42 {
                w = j + 1;
                kw = k + 1;
            } else {
                w = skip_digits_at(f, j);
            }
            assert((w as int, kw as nat) == after_width(f@, j as int, k0));
            let mut p = w;
            let mut kp = kw;
            if w < n && f[w] == 46 {
                if w + 1 < n && f[w + 1] == 42 {
                    p = w + 2;
                    kp = kw + 1;
                } else {
                    p = skip_digits_at(f, w + 1);
                }
            }
            assert((p as int, kp as nat) == after_precision(f@, w as int, kw as nat));
            let e = skip_length_at(f, p);
            if e >= n {
                assert(out@ + directives_from(f@, n as int, kp as nat).0 =~= before
                    + directives_from(f@, i as int, k0).0);
                k = kp;
                i = n;
            } else {
                let d = conversion_of(f[e], kp);
                let ghost rest = directives_from(f@, e + 1, kp as nat + slots_of(d));
                match d {
                    Some(x) => {
                        out.push(x);
                        k = match x {
                            Directive::Percent => kp,
                            _ => kp + 1,
                        };
                        assert(out@ + rest.0 =~= before + (seq![x] + rest.0));
                    },
                    None => {
                        k = kp;
                    },
                }
                assert(k as nat == kp as nat + slots_of(d));
                i = e + 1;
            }
        }
    }
    (out, k)
}

/// The value in slot `k`; a slot past the arguments reads as zero.
pub open spec fn slot(args: Seq<u64>, k: int) -> u64 {
    if 0 <= k < args.len() {
        args[k]
    } else {
        0
    }
}

/// `n` in decimal.
pub open spec fn decimal(n: nat) -> Seq<u8>
    decreases n,
{
    if n < 10 {
        seq![(48 + n) as u8]
    } else {
        decimal(n / 10).push((48 + n % 10) as u8)
    }
}

/// The ASCII hexadecimal digit for `d` below 16.
pub open spec fn hex_byte(d: nat, upper: bool) -> u8 {
    if d < 10 {
        (48 + d) as u8
    } else if upper {
        (55 + d) as u8
    } else {
        (87 + d) as u8
    }
}

/// `n` in hexadecimal, without leading zeros.
pub open spec fn hexadecimal(n: nat, upper: bool) -> Seq<u8>
    decreases n,
{
    if n < 16 {
        seq![hex_byte(n, upper)]
    } else {
        hexadecimal(n / 16, upper).push(hex_byte(n % 16, upper))
    }
}

/// `v` as sixteen uppercase hexadecimal digits.
pub open spec fn hex16(v: u64) -> Seq<u8> {
    Seq::new(16, |i: int| hex_byte(((v >> (4 * (15 - i)) as u64) & 0xf) as nat, true))
}

/// The 64-bit slot value read as a two's-complement signed number.
pub open spec fn signed_value(v: u64) -> int {
    if v >= 0x8000_0000_0000_0000 {
        v - 0x1_0000_0000_0000_0000
    } else {
        v as int
    }
}

/// The bytes a directive renders to; none for the string and floating-point
/// conversions, whose text the host supplies.
pub open spec fn rendered(d: Directive, args: Seq<u64>) -> Option<Seq<u8>> {
    match d {
        Directive::Literal(c) => Some(seq![c]),
        Directive::Percent => Some(seq![37u8]),
        Directive::Str(_) => None,
        Directive::Float(_) => None,
        Directive::Signed(k) => {
            let v = signed_value(slot(args, k as int));
            if v < 0 {
                Some(seq![45u8] + decimal((-v) as nat))
            } else {
                Some(decimal(v as nat))
            }
        },
        Directive::Unsigned(k) => Some(decimal(slot(args, k as int) as nat)),
        Directive::HexLower(k) => Some(hexadecimal(slot(args, k as int) as nat, false)),
        Directive::HexUpper(k) => Some(hexadecimal(slot(args, k as int) as nat, true)),
        Directive::Pointer(k) => Some(hex16(slot(args, k as int))),
        Directive::Char(k) => Some(seq![(slot(args, k as int) & 0xff) as u8]),
    }
}

fn decimal_of(n: u64) -> (r: Vec<u8>)
    ensures
        r@ == decimal(n as nat),
    decreases n,
{
    if n < 10 {
        let mut r: Vec<u8> = Vec::new();
        r.push((48 + n) as u8);
        assert(r@ =~= decimal(n as nat));
        r
    } else {
        let mut r = decimal_of(n / 10);
        r.push((48 + n % 10) as u8);
        r
    }
}

fn hex_byte_of(d: u64, upper: bool) -> (r: u8)
    requires
        d < 16,
    ensures
        r == hex_byte(d as nat, upper),
{
    if d < 10 {
        (48 + d) as u8
    } else if upper {
        (55 + d) as u8
    } else {
        (87 + d) as u8
    }
}

fn hexadecimal_of(n: u64, upper: bool) -> (r: Vec<u8>)
    ensures
        r@ == hexadecimal(n as nat, upper),
    decreases n,
{
    if n < 16 {
        let mut r: Vec<u8> = Vec::new();
        r.push(hex_byte_of(n, upper));
        assert(r@ =~= hexadecimal(n as nat, upper));
        r
    } else {
        let mut r = hexadecimal_of(n / 16, upper);
        r.push(hex_byte_of(n % 16, upper));
        r
    }
}

fn hex16_of(v: u64) -> (r: Vec<u8>)
    ensures
        r@ == hex16(v),
{
    let mut r: Vec<u8> = Vec::new();
    let mut i: u64 = 0;
    while i < 16
        invariant
            i <= 16,
            r@ =~= hex16(v).take(i as int),
        decreases 16 - i,
    {
        let sh: u64 = 4 * (15 - i);
        let d = (v >> sh) & 0xf;
        assert(d < 16) by (bit_vector)
            requires
                d == (v >> sh) & 0xf,
        ;
        r.push(hex_byte_of(d, true));
        i = i + 1;
    }
    r
}

/// The bytes a directive renders to, given the argument slots; none for the
/// string and floating-point conversions.
pub fn render_directive(d: Directive, args: &[u64]) -> (r: Option<Vec<u8>>)
    ensures
        match r {
            Some(b) => rendered(d, args@) == Some(b@),
            None => rendered(d, args@) is None,
        },
{
    let arg = |k: usize| -> (v: u64)
        ensures
            v == slot(args@, k as int),
        {
            if k < args.len() {
                args[k]
            } else {
                0
            }
        };
    match d {
        Directive::Literal(c) => {
            let mut r: Vec<u8> = Vec::new();
            r.push(c);
            assert(r@ =~= seq![c]);
            Some(r)
        },
        Directive::Percent => {
            let mut r: Vec<u8> = Vec::new();
            r.push(37);
            assert(r@ =~= seq![37u8]);
            Some(r)
        },
        Directive::Str(_) => None,
        Directive::Float(_) => None,
        Directive::Signed(k) => {
            let v = arg(k);
            if v >= 0x8000_0000_0000_0000 {
                let mag: u64 = u64::MAX - v + 1;
                let digits = decimal_of(mag);
                let mut r: Vec<u8> = Vec::new();
                r.push(45);
                let mut t: usize = 0;
                while t < digits.len()
                    invariant
                        t <= digits@.len(),
                        r@ =~= seq![45u8] + digits@.take(t as int),
                    decreases digits@.len() - t,
                {
                    r.push(digits[t]);
                    t = t + 1;
                }
                assert(digits@.take(digits@.len() as int) =~= digits@);
                Some(r)
            } else {
                Some(decimal_of(v))
            }
        },
        Directive::Unsigned(k) => Some(decimal_of(arg(k))),
        Directive::HexLower(k) => Some(hexadecimal_of(arg(k), false)),
        Directive::HexUpper(k) => Some(hexadecimal_of(arg(k), true)),
        Directive::Pointer(k) => Some(hex16_of(arg(k))),
        Directive::Char(k) => {
            let mut r: Vec<u8> = Vec::new();
            r.push((arg(k) & 0xff) as u8);
            assert(r@ =~= seq![(slot(args@, k as int) & 0xff) as u8]);
            Some(r)
        },
    }
}

/// The pieces joined in order.
pub open spec fn joined(pieces: Seq<Seq<u8>>) -> Seq<u8>
    decreases pieces.len(),
{
    if pieces.len() == 0 {
        Seq::empty()
    } else {
        joined(pieces.drop_last()) + pieces.last()
    }
}

/// At most the first `cap` bytes of `s`.
pub open spec fn cut(s: Seq<u8>, cap: nat) -> Seq<u8> {
    if s.len() <= cap {
        s
    } else {
        s.take(cap as int)
    }
}

/// The bytes written into a destination of `count` bytes: the rendered
/// pieces joined and cut to `count - 1`, leaving room for the terminating
/// NUL. None when the destination has no room at all.
pub fn fill_destination(count: usize, pieces: &Vec<Vec<u8>>) -> (r: Option<Vec<u8>>)
    ensures
        count == 0 ==> r is None,
        count > 0 ==> r is Some && r->0@ == cut(joined(pieces.deep_view()), (count - 1) as nat),
{
    if count == 0 {
        return None;
    }
    let cap = count - 1;
    let ghost pv = pieces.deep_view();
    let mut out: Vec<u8> = Vec::new();
    let mut p: usize = 0;
    assert(pv.take(0) =~= Seq::<Seq<u8>>::empty());
    assert(out@ =~= cut(joined(pv.take(0)), cap as nat));
    while p < pieces.len()
        invariant
            p <= pieces@.len(),
            pv == pieces.deep_view(),
            out@ == cut(joined(pv.take(p as int)), cap as nat),
        decreases pieces@.len() - p,
    {
        let piece = &pieces[p];
        assert(pv[p as int] == piece@);
        let ghost base = joined(pv.take(p as int));
        assert(joined(pv.take(p + 1)) == base + piece@) by {
            assert(pv.take(p + 1).drop_last() =~= pv.take(p as int));
        }
        let mut b: usize = 0;
        while b < piece.len()
            invariant
                b <= piece@.len(),
                out@ == cut(base + piece@.take(b as int), cap as nat),
            decreases piece@.len() - b,
        {
            if out.len() < cap {
                out.push(piece[b]);
            }
            assert(base + piece@.take(b + 1) =~= (base + piece@.take(b as int)).push(piece@[b as int]));
            b = b + 1;
        }
        assert(piece@.take(piece@.len() as int) =~= piece@);
        p = p + 1;
    }
    assert(pv.take(pieces@.len() as int) =~= pv);
    Some(out)
}

} // verus!
