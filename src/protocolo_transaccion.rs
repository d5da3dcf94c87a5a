//! Messages of the two-phase commit protocol and their wire text
//! (`<CODE> <sender_id> <op_id> [<amount>]`). Amounts are held in cents.
use vstd::prelude::*;
use crate::error::{error_codigo, resultado_es, ErrorApp, Fallo, Resultado};
use crate::texto::{
    agregar_caracter, campos, caracteres, decimal, digito, dividir, es_numero, es_palabra,
    escribir_decimal, lema_campos_concat, lema_campos_no_vacio, lema_campos_uno, lema_decimal,
    lema_digito, lema_numero_sin, parsear_u64, parsear_usize, valor,
};

verus! {

/// The code of a transaction message.
/// PREPARE: asks a stakeholder to take the resources for `monto` cents.
/// READY: the resources were taken and the commit can be made.
/// COMMIT: asks for the commit, or reports that it was made.
/// ABORT: asks for the abort, or reports that it was made.
#[derive(Clone, Copy, PartialEq, Eq, Structural, Debug)]
pub enum CodigoTransaccion {
    PREPARE { monto: u64 },
    READY,
    COMMIT,
    ABORT,
}

/// A message of the two-phase commit protocol about operation `id_op`.
#[derive(Clone, Copy, Debug)]
pub struct MensajeTransaccion {
    pub codigo: CodigoTransaccion,
    pub id_emisor: usize,
    pub id_op: usize,
}

/// Two messages match when their codes and operations do; the sender is
/// not compared.
pub open spec fn mismo_mensaje(a: MensajeTransaccion, b: MensajeTransaccion) -> bool {
    a.codigo == b.codigo && a.id_op == b.id_op
}

impl PartialEq for MensajeTransaccion {
    fn eq(&self, otro: &Self) -> (r: bool)
        ensures
            r == mismo_mensaje(*self, *otro),
    {
        self.codigo == otro.codigo && self.id_op == otro.id_op
    }
}

impl vstd::std_specs::cmp::PartialEqSpecImpl for MensajeTransaccion {
    open spec fn obeys_eq_spec() -> bool {
        true
    }

    open spec fn eq_spec(&self, otro: &MensajeTransaccion) -> bool {
        mismo_mensaje(*self, *otro)
    }
}

/// The text of an amount of `c` cents: the whole part, then the cents after
/// a point with trailing zeros left out.
pub open spec fn texto_monto(c: nat) -> Seq<char> {
    let fr = c % 100;
    if fr == 0 {
        decimal(c / 100)
    } else if fr % 10 == 0 {
        decimal(c / 100) + seq!['.', digito(fr / 10)]
    } else {
        decimal(c / 100) + seq!['.', digito(fr / 10), digito(fr % 10)]
    }
}

/// The cents that the text `s` writes: whole units, optionally followed by
/// a point and one or two decimal digits.
pub open spec fn valor_monto(s: Seq<char>) -> Option<nat> {
    let p = campos(s, '.');
    if p.len() == 1 && es_numero(p[0]) {
        Some(valor(p[0]) * 100)
    } else if p.len() == 2 && es_numero(p[0]) && es_numero(p[1]) && p[1].len() <= 2 {
        Some(
            valor(p[0]) * 100 + if p[1].len() == 1 {
                valor(p[1]) * 10
            } else {
                valor(p[1])
            },
        )
    } else {
        None
    }
}

/// A readable amount that fits in a `u64`.
pub open spec fn es_monto(t: Seq<char>) -> bool {
    valor_monto(t) is Some && valor_monto(t)->0 <= u64::MAX
}

/// The wire word of each code.
pub open spec fn etiqueta_transaccion(c: CodigoTransaccion) -> Seq<char> {
    match c {
        CodigoTransaccion::PREPARE { .. } => "PREPARE"@,
        CodigoTransaccion::READY => "READY"@,
        CodigoTransaccion::COMMIT => "COMMIT"@,
        CodigoTransaccion::ABORT => "ABORT"@,
    }
}

/// The wire text of `m`.
pub open spec fn texto_transaccion(m: MensajeTransaccion) -> Seq<char> {
    let base = etiqueta_transaccion(m.codigo) + seq![' '] + decimal(m.id_emisor as nat) + seq![' ']
        + decimal(m.id_op as nat);
    match m.codigo {
        CodigoTransaccion::PREPARE { monto } => base + seq![' '] + texto_monto(monto as nat),
        _ => base,
    }
}

pub open spec fn es_usize(t: Seq<char>) -> bool {
    es_numero(t) && valor(t) <= usize::MAX
}

/// What decoding the text `s` gives. The first field names the code; a
/// PREPARE carries its amount in the fourth field, which is read first; the
/// second and third fields are the sender and the operation. Fields after
/// those are not read.
pub open spec fn decodificacion_transaccion(s: Seq<char>) -> Result<MensajeTransaccion, Fallo> {
    let f = campos(s, ' ');
    let t = f[0];
    if t != "PREPARE"@ && t != "READY"@ && t != "COMMIT"@ && t != "ABORT"@ {
        Err(Fallo::Codigo(t))
    } else if t == "PREPARE"@ && !(f.len() >= 4 && es_monto(f[3])) {
        Err(Fallo::Monto)
    } else if !(f.len() >= 3 && es_usize(f[1]) && es_usize(f[2])) {
        Err(Fallo::Entero)
    } else {
        let codigo = if t == "PREPARE"@ {
            CodigoTransaccion::PREPARE { monto: valor_monto(f[3])->0 as u64 }
        } else if t == "READY"@ {
            CodigoTransaccion::READY
        } else if t == "COMMIT"@ {
            CodigoTransaccion::COMMIT
        } else {
            CodigoTransaccion::ABORT
        };
        Ok(
            MensajeTransaccion {
                codigo,
                id_emisor: valor(f[1]) as usize,
                id_op: valor(f[2]) as usize,
            },
        )
    }
}

/// Appends the text of an amount of `c` cents to `s`.
pub fn escribir_monto(s: &mut String, c: u64)
    ensures
        final(s)@ == old(s)@ + texto_monto(c as nat),
{
    escribir_decimal(s, c / 100);
    let fr = c % 100;
    if fr != 0 {
        agregar_caracter(s, '.');
        agregar_caracter(s, digito_exec(fr / 10));
        if fr % 10 != 0 {
            agregar_caracter(s, digito_exec(fr % 10));
        }
    }
    assert(s@ =~= old(s)@ + texto_monto(c as nat));
}

/// The character of the digit `d`.
pub fn digito_exec(d: u64) -> (r: char)
    requires
        d < 10,
    ensures
        r == digito(d as nat),
{
    if d == 0 {
        '0'
    } else if d == 1 {
        '1'
    } else if d == 2 {
        '2'
    } else if d == 3 {
        '3'
    } else if d == 4 {
        '4'
    } else if d == 5 {
        '5'
    } else if d == 6 {
        '6'
    } else if d == 7 {
        '7'
    } else if d == 8 {
        '8'
    } else {
        '9'
    }
}

/// Reads the cents written by one or two decimal digits after the point.
pub fn parsear_fraccion(q: &Vec<char>) -> (r: Option<u64>)
    requires
        q.len() == 1 || q.len() == 2,
    ensures
        r matches Some(v) ==> es_numero(q@) && v == (if q.len() == 1 {
            valor(q@) * 10
        } else {
            valor(q@)
        }),
        r is None ==> !es_numero(q@),
{
    let a = q[0];
    if !('0' <= a && a <= '9') {
        assert(!crate::texto::es_digito(q@[0]));
        return None;
    }
    let da = (a as u32 - '0' as u32) as u64;
    proof {
        assert(q@.subrange(0, 1).drop_last() =~= Seq::<char>::empty());
        assert(valor(Seq::<char>::empty()) == 0);
        assert(q@.subrange(0, 1).last() == a);
        assert(crate::texto::valor_digito(a) == da);
        assert(valor(q@.subrange(0, 1)) == da);
    }
    if q.len() == 1 {
        assert(q@.subrange(0, 1) =~= q@);
        return Some(da * 10);
    }
    let b = q[1];
    if !('0' <= b && b <= '9') {
        assert(!crate::texto::es_digito(q@[1]));
        return None;
    }
    let db = (b as u32 - '0' as u32) as u64;
    proof {
        assert(q@.drop_last() =~= q@.subrange(0, 1));
        assert(valor(q@) == da * 10 + db);
    }
    Some(da * 10 + db)
}

/// Reads an amount in cents from its text.
pub fn parsear_monto(t: &Vec<char>) -> (r: Option<u64>)
    ensures
        r matches Some(v) ==> valor_monto(t@) == Some(v as nat),
        r is None ==> !es_monto(t@),
{
    let p = dividir(t, '.');
    proof {
        lema_campos_no_vacio(t@, '.');
    }
    if p.len() > 2 {
        return None;
    }
    let entero = match parsear_u64(&p[0]) {
        Some(v) => v,
        None => {
            return None;
        },
    };
    let fr: u64 = if p.len() == 1 {
        0
    } else {
        if p[1].len() > 2 || p[1].len() == 0 {
            return None;
        }
        match parsear_fraccion(&p[1]) {
            Some(v) => v,
            None => {
                return None;
            },
        }
    };
    if entero > (u64::MAX - fr) / 100 {
        proof {
            assert(entero * 100 + fr > u64::MAX) by (nonlinear_arith)
                requires
                    entero > (u64::MAX - fr) / 100,
                    fr <= u64::MAX,
            ;
        }
        return None;
    }
    proof {
        assert(entero * 100 + fr <= u64::MAX) by (nonlinear_arith)
            requires
                entero <= (u64::MAX - fr) / 100,
                fr <= u64::MAX,
        ;
    }
    Some(entero * 100 + fr)
}

impl MensajeTransaccion {
    /// A message with code `codigo` from node `id_emisor` about `id_op`.
    pub fn new(codigo: CodigoTransaccion, id_emisor: usize, id_op: usize) -> (r: Self)
        ensures
            r.codigo == codigo,
            r.id_emisor == id_emisor,
            r.id_op == id_op,
    {
        Self { codigo, id_emisor, id_op }
    }

    /// The wire text of the message.
    pub fn codificar(&self) -> (r: String)
        ensures
            r@ == texto_transaccion(*self),
    {
        let mut r = match self.codigo {
            CodigoTransaccion::PREPARE { .. } => String::from_str("PREPARE "),
            CodigoTransaccion::READY => String::from_str("READY "),
            CodigoTransaccion::COMMIT => String::from_str("COMMIT "),
            CodigoTransaccion::ABORT => String::from_str("ABORT "),
        };
        proof {
            reveal_strlit("PREPARE ");
            reveal_strlit("READY ");
            reveal_strlit("COMMIT ");
            reveal_strlit("ABORT ");
            reveal_strlit("PREPARE");
            reveal_strlit("READY");
            reveal_strlit("COMMIT");
            reveal_strlit("ABORT");
            assert(r@ =~= etiqueta_transaccion(self.codigo) + seq![' ']);
        }
        escribir_decimal(&mut r, self.id_emisor as u64);
        agregar_caracter(&mut r, ' ');
        escribir_decimal(&mut r, self.id_op as u64);
        match self.codigo {
            CodigoTransaccion::PREPARE { monto } => {
                agregar_caracter(&mut r, ' ');
                escribir_monto(&mut r, monto);
            },
            _ => {},
        }
        assert(r@ =~= texto_transaccion(*self));
        r
    }

    /// Reads a message from its wire text: an unknown code, a sender or
    /// operation that is not a decimal number, or a PREPARE without a
    /// readable amount is an error.
    pub fn decodificar(mensaje_codificado: &String) -> (r: Resultado<MensajeTransaccion>)
        ensures
            resultado_es(r, decodificacion_transaccion(mensaje_codificado@)),
    {
        let texto = caracteres(mensaje_codificado.as_str());
        let f = dividir(&texto, ' ');
        proof {
            lema_campos_no_vacio(texto@, ' ');
        }
        let es_prepare = es_palabra(&f[0], "PREPARE");
        let es_ready = es_palabra(&f[0], "READY");
        let es_commit = es_palabra(&f[0], "COMMIT");
        let es_abort = es_palabra(&f[0], "ABORT");
        if !es_prepare && !es_ready && !es_commit && !es_abort {
            return error_codigo(&f[0]);
        }
        let mut monto: u64 = 0;
        if es_prepare {
            if f.len() < 4 {
                return Err(ErrorApp::ErrorParseoMonto);
            }
            match parsear_monto(&f[3]) {
                Some(v) => {
                    monto = v;
                },
                None => {
                    return Err(ErrorApp::ErrorParseoMonto);
                },
            }
        }
        if f.len() < 3 {
            return Err(ErrorApp::ErrorParseoInt);
        }
        let id_emisor = match parsear_usize(&f[1]) {
            Some(v) => v,
            None => {
                return Err(ErrorApp::ErrorParseoInt);
            },
        };
        let id_op = match parsear_usize(&f[2]) {
            Some(v) => v,
            None => {
                return Err(ErrorApp::ErrorParseoInt);
            },
        };
        let codigo = if es_prepare {
            CodigoTransaccion::PREPARE { monto }
        } else if es_ready {
            CodigoTransaccion::READY
        } else if es_commit {
            CodigoTransaccion::COMMIT
        } else {
            CodigoTransaccion::ABORT
        };
        Ok(MensajeTransaccion::new(codigo, id_emisor, id_op))
    }
}

/// Reading the text of an amount gives its cents back.
pub proof fn lema_ida_y_vuelta_monto(c: nat)
    ensures
        valor_monto(texto_monto(c)) == Some(c),
        crate::texto::sin(texto_monto(c), ' '),
{
    let ent = decimal(c / 100);
    let fr = c % 100;
    lema_decimal(c / 100);
    lema_numero_sin(ent, '.');
    lema_numero_sin(ent, ' ');
    lema_campos_uno(ent, '.');
    assert(c == (c / 100) * 100 + fr);
    assert(valor(Seq::<char>::empty()) == 0);
    if fr == 0 {
        assert(texto_monto(c) == ent);
    } else if fr % 10 == 0 {
        let y = seq![digito(fr / 10)];
        lema_digito(fr / 10);
        assert(texto_monto(c) =~= ent + seq!['.'] + y);
        lema_campos_concat(ent, '.', y);
        lema_campos_uno(y, '.');
        assert(campos(texto_monto(c), '.') =~= seq![ent, y]);
        assert(y.drop_last() =~= Seq::<char>::empty());
        assert(valor(y) == fr / 10);
        assert(es_numero(y));
        assert(crate::texto::sin(texto_monto(c), ' '));
    } else {
        let y = seq![digito(fr / 10), digito(fr % 10)];
        lema_digito(fr / 10);
        lema_digito(fr % 10);
        assert(texto_monto(c) =~= ent + seq!['.'] + y);
        lema_campos_concat(ent, '.', y);
        lema_campos_uno(y, '.');
        assert(campos(texto_monto(c), '.') =~= seq![ent, y]);
        assert(y.drop_last() =~= seq![digito(fr / 10)]);
        assert(seq![digito(fr / 10)].drop_last() =~= Seq::<char>::empty());
        assert(valor(seq![digito(fr / 10)]) == fr / 10);
        assert(valor(y) == (fr / 10) * 10 + fr % 10);
        assert(es_numero(y));
        assert(crate::texto::sin(texto_monto(c), ' '));
    }
}

/// Decoding the wire text of a message gives the message back.
pub proof fn lema_ida_y_vuelta_transaccion(m: MensajeTransaccion)
    ensures
        decodificacion_transaccion(texto_transaccion(m)) == Ok::<MensajeTransaccion, Fallo>(m),
{
    reveal_strlit("PREPARE");
    reveal_strlit("READY");
    reveal_strlit("COMMIT");
    reveal_strlit("ABORT");
    let e = etiqueta_transaccion(m.codigo);
    let d1 = decimal(m.id_emisor as nat);
    let d2 = decimal(m.id_op as nat);
    lema_decimal(m.id_emisor as nat);
    lema_decimal(m.id_op as nat);
    lema_numero_sin(d1, ' ');
    lema_numero_sin(d2, ' ');
    assert(crate::texto::sin(e, ' '));
    lema_campos_uno(e, ' ');
    lema_campos_uno(d1, ' ');
    lema_campos_uno(d2, ' ');
    let x1 = e + seq![' '] + d1;
    let x2 = x1 + seq![' '] + d2;
    lema_campos_concat(e, ' ', d1);
    lema_campos_concat(x1, ' ', d2);
    match m.codigo {
        CodigoTransaccion::PREPARE { monto } => {
            let t = texto_monto(monto as nat);
            lema_ida_y_vuelta_monto(monto as nat);
            lema_campos_uno(t, ' ');
            lema_campos_concat(x2, ' ', t);
            assert(texto_transaccion(m) == x2 + seq![' '] + t);
            assert(campos(texto_transaccion(m), ' ') =~= seq![e, d1, d2, t]);
        },
        _ => {
            assert(texto_transaccion(m) == x2);
            assert(campos(texto_transaccion(m), ' ') =~= seq![e, d1, d2]);
        },
    }
}

} // verus!
