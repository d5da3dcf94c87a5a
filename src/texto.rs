//! Decimal numbers and separated fields over character sequences: the
//! building blocks of every textual format of the node (wire messages,
//! operator commands, log lines, payment records).
use vstd::prelude::*;

verus! {

pub open spec fn es_digito(c: char) -> bool {
    '0' <= c && c <= '9'
}

pub open spec fn valor_digito(c: char) -> nat {
    (c as u32 - '0' as u32) as nat
}

/// The character that writes the digit `d`.
pub open spec fn digito(d: nat) -> char {
    if d == 0 {
        '0'
    } else if d == 1 {
        '1'
    } else if d == 2 {
        '2'
    } else if d == 3 {
        '3'
    } else if d == 4 {
        '4'
    } else if d == 5 {
        '5'
    } else if d == 6 {
        '6'
    } else if d == 7 {
        '7'
    } else if d == 8 {
        '8'
    } else {
        '9'
    }
}

/// A non-empty run of decimal digits.
pub open spec fn es_numero(s: Seq<char>) -> bool {
    s.len() > 0 && forall|i: int| 0 <= i < s.len() ==> #[trigger] es_digito(s[i])
}

/// The value of a run of decimal digits.
pub open spec fn valor(s: Seq<char>) -> nat
    decreases s.len(),
{
    if s.len() == 0 {
        0
    } else {
        valor(s.drop_last()) * 10 + valor_digito(s.last())
    }
}

/// The shortest decimal writing of `n`.
pub open spec fn decimal(n: nat) -> Seq<char>
    decreases n,
{
    if n < 10 {
        seq![digito(n)]
    } else {
        decimal(n / 10).push(digito(n % 10))
    }
}

/// The fields of `s` between occurrences of `sep`: an empty text has one
/// empty field, and two separators in a row enclose an empty field.
pub open spec fn campos(s: Seq<char>, sep: char) -> Seq<Seq<char>>
    decreases s.len(),
{
    if s.len() == 0 {
        seq![Seq::<char>::empty()]
    } else {
        let previos = campos(s.drop_last(), sep);
        if s.last() == sep {
            previos.push(Seq::<char>::empty())
        } else {
            previos.update(previos.len() - 1, previos.last().push(s.last()))
        }
    }
}

pub open spec fn sin(s: Seq<char>, c: char) -> bool {
    forall|i: int| 0 <= i < s.len() ==> s[i] != c
}

pub proof fn lema_digito(d: nat)
    requires
        d < 10,
    ensures
        es_digito(digito(d)),
        valor_digito(digito(d)) == d,
{
}

pub proof fn lema_campos_no_vacio(s: Seq<char>, sep: char)
    ensures
        campos(s, sep).len() >= 1,
    decreases s.len(),
{
    if s.len() > 0 {
        lema_campos_no_vacio(s.drop_last(), sep);
    }
}

/// A text without the separator is a single field.
pub proof fn lema_campos_uno(s: Seq<char>, sep: char)
    requires
        sin(s, sep),
    ensures
        campos(s, sep) == seq![s],
    decreases s.len(),
{
    if s.len() > 0 {
        assert(sin(s.drop_last(), sep));
        lema_campos_uno(s.drop_last(), sep);
        assert(s.last() != sep);
        assert(s.drop_last().push(s.last()) =~= s);
        assert(campos(s, sep) =~= seq![s]);
    } else {
        assert(s =~= Seq::<char>::empty());
    }
}

/// Joining two texts with the separator joins their fields.
pub proof fn lema_campos_concat(x: Seq<char>, sep: char, y: Seq<char>)
    ensures
        campos(x + seq![sep] + y, sep) == campos(x, sep) + campos(y, sep),
    decreases y.len(),
{
    let s = x + seq![sep] + y;
    if y.len() == 0 {
        assert(s.drop_last() =~= x);
        assert(campos(s, sep) =~= campos(x, sep) + campos(y, sep));
    } else {
        lema_campos_concat(x, sep, y.drop_last());
        assert(s.drop_last() =~= x + seq![sep] + y.drop_last());
        lema_campos_no_vacio(y.drop_last(), sep);
        lema_campos_no_vacio(x, sep);
        let cx = campos(x, sep);
        let cy = campos(y.drop_last(), sep);
        if y.last() == sep {
            assert(campos(s, sep) =~= cx + campos(y, sep));
        } else {
            let p = cx + cy;
            assert(p.last() == cy.last());
            assert(p.update(p.len() - 1, p.last().push(y.last())) =~= cx + cy.update(
                cy.len() - 1,
                cy.last().push(y.last()),
            ));
            assert(campos(s, sep) =~= cx + campos(y, sep));
        }
    }
}

pub proof fn lema_decimal(n: nat)
    ensures
        es_numero(decimal(n)),
        valor(decimal(n)) == n,
    decreases n,
{
    if n < 10 {
        lema_digito(n);
        assert(seq![digito(n)].drop_last() =~= Seq::<char>::empty());
        assert(valor(Seq::<char>::empty()) == 0);
        assert(valor(seq![digito(n)]) == valor_digito(digito(n)));
    } else {
        lema_decimal(n / 10);
        lema_digito(n % 10);
        let d = decimal(n / 10).push(digito(n % 10));
        assert(d.drop_last() =~= decimal(n / 10));
        assert forall|i: int| 0 <= i < d.len() implies #[trigger] es_digito(d[i]) by {
            if i < d.len() - 1 {
                assert(d[i] == decimal(n / 10)[i]);
            }
        }
        assert(valor(d) == valor(decimal(n / 10)) * 10 + valor_digito(digito(n % 10)));
        assert((n / 10) * 10 + n % 10 == n);
    }
}

/// Digits never hold a separator of the formats (space, comma, point).
pub proof fn lema_numero_sin(s: Seq<char>, c: char)
    requires
        es_numero(s),
        !es_digito(c),
    ensures
        sin(s, c),
{
    assert forall|i: int| 0 <= i < s.len() implies s[i] != c by {
        assert(es_digito(s[i]));
    }
}

pub proof fn lema_valor_prefijo(s: Seq<char>, i: int, j: int)
    requires
        0 <= i <= j <= s.len(),
    ensures
        valor(s.subrange(0, i)) <= valor(s.subrange(0, j)),
    decreases j - i,
{
    if i < j {
        lema_valor_prefijo(s, i, j - 1);
        assert(s.subrange(0, j).drop_last() =~= s.subrange(0, j - 1));
    }
}

/// The digit character for `d`, as text.
fn texto_digito(d: u64) -> (r: &'static str)
    requires
        d < 10,
    ensures
        r@ == seq![digito(d as nat)],
{
    if d == 0 {
        proof { reveal_strlit("0"); }
        "0"
    } else if d == 1 {
        proof { reveal_strlit("1"); }
        "1"
    } else if d == 2 {
        proof { reveal_strlit("2"); }
        "2"
    } else if d == 3 {
        proof { reveal_strlit("3"); }
        "3"
    } else if d == 4 {
        proof { reveal_strlit("4"); }
        "4"
    } else if d == 5 {
        proof { reveal_strlit("5"); }
        "5"
    } else if d == 6 {
        proof { reveal_strlit("6"); }
        "6"
    } else if d == 7 {
        proof { reveal_strlit("7"); }
        "7"
    } else if d == 8 {
        proof { reveal_strlit("8"); }
        "8"
    } else {
        proof { reveal_strlit("9"); }
        "9"
    }
}

/// Appends the decimal writing of `n` to `s`.
pub fn escribir_decimal(s: &mut String, n: u64)
    ensures
        final(s)@ == old(s)@ + decimal(n as nat),
    decreases n,
{
    if n < 10 {
        s.append(texto_digito(n));
    } else {
        escribir_decimal(s, n / 10);
        s.append(texto_digito(n % 10));
        assert(old(s)@ + decimal(n as nat) =~= old(s)@ + decimal((n / 10) as nat) + seq![
            digito((n % 10) as nat),
        ]);
    }
}

/// Relies on `String::push`: the character goes at the end of the text.
#[verifier::external_body]
pub(crate) fn agregar_caracter(s: &mut String, c: char)
    ensures
        final(s)@ == old(s)@.push(c),
{
    s.push(c)
}

/// Appends the characters of `v` to `s`.
pub fn agregar_caracteres(s: &mut String, v: &Vec<char>)
    ensures
        final(s)@ == old(s)@ + v@,
{
    let mut i: usize = 0;
    while i < v.len()
        invariant
            i <= v.len(),
            s@ == old(s)@ + v@.subrange(0, i as int),
        decreases v.len() - i,
    {
        agregar_caracter(s, v[i]);
        i = i + 1;
        assert(s@ =~= old(s)@ + v@.subrange(0, i as int));
    }
    assert(v@.subrange(0, v.len() as int) =~= v@);
}

/// Whether the characters of `v` are exactly those of `w`.
pub fn es_palabra(v: &Vec<char>, w: &str) -> (r: bool)
    ensures
        r == (v@ == w@),
{
    let n = w.unicode_len();
    if v.len() != n {
        return false;
    }
    let mut i: usize = 0;
    while i < n
        invariant
            n == w@.len(),
            n == v.len(),
            i <= n,
            forall|k: int| 0 <= k < i ==> v@[k] == w@[k],
        decreases n - i,
    {
        if v[i] != w.get_char(i) {
            return false;
        }
        i = i + 1;
    }
    assert(v@ =~= w@);
    true
}

/// The characters of `s`.
pub fn caracteres(s: &str) -> (r: Vec<char>)
    ensures
        r@ == s@,
{
    let n = s.unicode_len();
    let mut r: Vec<char> = Vec::new();
    let mut i: usize = 0;
    while i < n
        invariant
            n == s@.len(),
            i <= n,
            r@ == s@.subrange(0, i as int),
        decreases n - i,
    {
        r.push(s.get_char(i));
        i = i + 1;
    }
    r
}

/// Splits `s` at every `sep`.
pub fn dividir(s: &Vec<char>, sep: char) -> (r: Vec<Vec<char>>)
    ensures
        r.len() == campos(s@, sep).len(),
        forall|i: int| 0 <= i < r.len() ==> #[trigger] r[i]@ == campos(s@, sep)[i],
{
    let mut hechos: Vec<Vec<char>> = Vec::new();
    let mut actual: Vec<char> = Vec::new();
    let mut i: usize = 0;
    while i < s.len()
        invariant
            i <= s.len(),
            hechos.len() + 1 == campos(s@.subrange(0, i as int), sep).len(),
            forall|k: int|
                0 <= k < hechos.len() ==> #[trigger] hechos[k]@ == campos(
                    s@.subrange(0, i as int),
                    sep,
                )[k],
            actual@ == campos(s@.subrange(0, i as int), sep).last(),
        decreases s.len() - i,
    {
        let c = s[i];
        proof {
            assert(s@.subrange(0, i + 1).drop_last() =~= s@.subrange(0, i as int));
            lema_campos_no_vacio(s@.subrange(0, i as int), sep);
        }
        if c == sep {
            let terminado = actual;
            hechos.push(terminado);
            actual = Vec::new();
        } else {
            actual.push(c);
        }
        i = i + 1;
    }
    proof {
        assert(s@.subrange(0, s.len() as int) =~= s@);
    }
    hechos.push(actual);
    hechos
}

/// Reads a run of decimal digits that fits in a `u64`.
pub fn parsear_u64(f: &Vec<char>) -> (r: Option<u64>)
    ensures
        r matches Some(v) ==> es_numero(f@) && valor(f@) == v,
        r is None ==> !es_numero(f@) || valor(f@) > u64::MAX,
{
    if f.len() == 0 {
        return None;
    }
    let mut v: u64 = 0;
    let mut i: usize = 0;
    while i < f.len()
        invariant
            i <= f.len(),
            v == valor(f@.subrange(0, i as int)),
            forall|k: int| 0 <= k < i ==> #[trigger] es_digito(f@[k]),
        decreases f.len() - i,
    {
        let c = f[i];
        proof {
            assert(f@.subrange(0, i + 1).drop_last() =~= f@.subrange(0, i as int));
        }
        if !('0' <= c && c <= '9') {
            assert(!es_digito(f@[i as int]));
            return None;
        }
        let d = (c as u32 - '0' as u32) as u64;
        if v > (u64::MAX - d) / 10 {
            proof {
                lema_valor_prefijo(f@, i + 1, f.len() as int);
                assert(f@.subrange(0, f.len() as int) =~= f@);
            }
            return None;
        }
        v = v * 10 + d;
        i = i + 1;
    }
    proof {
        assert(f@.subrange(0, f.len() as int) =~= f@);
    }
    Some(v)
}

/// Reads a run of decimal digits that fits in a `usize`.
pub fn parsear_usize(f: &Vec<char>) -> (r: Option<usize>)
    ensures
        r matches Some(v) ==> es_numero(f@) && valor(f@) == v,
        r is None ==> !es_numero(f@) || valor(f@) > usize::MAX,
{
    match parsear_u64(f) {
        Some(v) => {
            if v <= usize::MAX as u64 {
                Some(v as usize)
            } else {
                None
            }
        },
        None => None,
    }
}

} // verus!
