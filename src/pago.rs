//! Payments and the record format of the payments files
//! (`<id>,<airline>,<hotel>`, amounts with two decimals).
use vstd::prelude::*;
use crate::protocolo_transaccion::{digito_exec, parsear_fraccion};
use crate::texto::{
    agregar_caracter, campos, caracteres, decimal, digito, dividir, es_numero, escribir_decimal,
    lema_campos_no_vacio, parsear_u64, valor,
};

verus! {

/// A payment to make: the amounts, in cents, owed to the airline and to the
/// hotel. The bank is owed their sum.
#[derive(Clone, Copy, Debug)]
pub struct Pago {
    id: usize,
    monto_aerolinea: u64,
    monto_hotel: u64,
}

impl Pago {
    #[verifier::type_invariant]
    spec fn total_cabe(self) -> bool {
        self.monto_aerolinea + self.monto_hotel <= u64::MAX
    }

    pub closed spec fn id(self) -> nat {
        self.id as nat
    }

    pub closed spec fn aerolinea(self) -> nat {
        self.monto_aerolinea as nat
    }

    pub closed spec fn hotel(self) -> nat {
        self.monto_hotel as nat
    }

    /// What the bank is owed.
    pub open spec fn total(self) -> nat {
        self.aerolinea() + self.hotel()
    }

    /// A payment with id `id` owing `monto_aerolinea` cents to the airline
    /// and `monto_hotel` cents to the hotel.
    pub fn new(id: usize, monto_aerolinea: u64, monto_hotel: u64) -> (r: Pago)
        requires
            monto_aerolinea + monto_hotel <= u64::MAX,
        ensures
            r.id() == id,
            r.aerolinea() == monto_aerolinea,
            r.hotel() == monto_hotel,
    {
        Pago { id, monto_aerolinea, monto_hotel }
    }

    /// The id of the payment.
    pub fn get_id(&self) -> (r: usize)
        ensures
            r == self.id(),
    {
        self.id
    }

    /// The cents owed to the airline.
    pub fn get_monto_aerolinea(&self) -> (r: u64)
        ensures
            r == self.aerolinea(),
    {
        self.monto_aerolinea
    }

    /// The cents owed to the hotel.
    pub fn get_monto_hotel(&self) -> (r: u64)
        ensures
            r == self.hotel(),
    {
        self.monto_hotel
    }

    /// The cents owed to the bank: both amounts together.
    pub fn get_monto_total(&self) -> (r: u64)
        ensures
            r == self.total(),
    {
        proof {
            use_type_invariant(self);
        }
        self.monto_aerolinea + self.monto_hotel
    }
}

/// The cents written as whole units, a point and exactly two digits.
pub open spec fn monto_con_centavos(t: Seq<char>) -> Option<nat> {
    let p = campos(t, '.');
    if p.len() == 2 && es_numero(p[0]) && es_numero(p[1]) && p[1].len() == 2 {
        Some(valor(p[0]) * 100 + valor(p[1]))
    } else {
        None
    }
}

/// The id and the two amounts of a payment record, if `s` is one.
pub open spec fn registro_pago(s: Seq<char>) -> Option<(nat, nat, nat)> {
    let f = campos(s, ',');
    if f.len() == 3 && es_numero(f[0]) && monto_con_centavos(f[1]) is Some && monto_con_centavos(
        f[2],
    ) is Some {
        Some((valor(f[0]), monto_con_centavos(f[1])->0, monto_con_centavos(f[2])->0))
    } else {
        None
    }
}

/// `s` is a payment record whose values a `Pago` can hold.
pub open spec fn es_registro_pago(s: Seq<char>) -> bool {
    registro_pago(s) matches Some(r) && r.0 <= usize::MAX && r.1 + r.2 <= u64::MAX
}

/// `p` holds the values of the record `s`.
pub open spec fn pago_de(p: Pago, s: Seq<char>) -> bool {
    registro_pago(s) matches Some(r) && p.id() == r.0 && p.aerolinea() == r.1 && p.hotel() == r.2
}

/// The text of an amount of `c` cents with exactly two decimals.
pub open spec fn texto_centavos(c: nat) -> Seq<char> {
    decimal(c / 100) + seq!['.', digito((c % 100) / 10), digito(c % 10)]
}

/// The record of a payment.
pub open spec fn texto_pago(p: Pago) -> Seq<char> {
    decimal(p.id()) + seq![','] + texto_centavos(p.aerolinea()) + seq![','] + texto_centavos(
        p.hotel(),
    )
}

/// Reads an amount with exactly two decimals.
fn parsear_centavos(t: &Vec<char>) -> (r: Option<u64>)
    ensures
        r matches Some(v) ==> monto_con_centavos(t@) == Some(v as nat),
        r is None ==> !(monto_con_centavos(t@) matches Some(v) && v <= u64::MAX),
{
    let p = dividir(t, '.');
    proof {
        lema_campos_no_vacio(t@, '.');
    }
    if p.len() != 2 || p[1].len() != 2 {
        return None;
    }
    let entero = match parsear_u64(&p[0]) {
        Some(v) => v,
        None => {
            return None;
        },
    };
    let fr = match parsear_fraccion(&p[1]) {
        Some(v) => v,
        None => {
            return None;
        },
    };
    if entero > (u64::MAX - fr) / 100 {
        proof {
            assert(entero * 100 + fr > u64::MAX) by (nonlinear_arith)
                requires
                    entero > (u64::MAX - fr) / 100,
                    fr <= u64::MAX,
            ;
        }
        return None;
    }
    proof {
        assert(entero * 100 + fr <= u64::MAX) by (nonlinear_arith)
            requires
                entero <= (u64::MAX - fr) / 100,
                fr <= u64::MAX,
        ;
    }
    Some(entero * 100 + fr)
}

/// Reads a payment from its record; a text that is not a record, or whose
/// values do not fit, gives none.
pub fn parsear_pago(linea: &str) -> (r: Option<Pago>)
    ensures
        r is Some <==> es_registro_pago(linea@),
        r matches Some(p) ==> pago_de(p, linea@),
{
    let texto = caracteres(linea);
    let f = dividir(&texto, ',');
    if f.len() != 3 {
        return None;
    }
    let id = parsear_u64(&f[0]);
    let a = parsear_centavos(&f[1]);
    let h = parsear_centavos(&f[2]);
    match (id, a, h) {
        (Some(id), Some(a), Some(h)) => {
            if id > usize::MAX as u64 || a > u64::MAX - h {
                None
            } else {
                Some(Pago::new(id as usize, a, h))
            }
        },
        _ => None,
    }
}

/// Appends the text of `c` cents with two decimals.
fn escribir_centavos(s: &mut String, c: u64)
    ensures
        final(s)@ == old(s)@ + texto_centavos(c as nat),
{
    escribir_decimal(s, c / 100);
    agregar_caracter(s, '.');
    agregar_caracter(s, digito_exec((c % 100) / 10));
    agregar_caracter(s, digito_exec(c % 10));
    assert(s@ =~= old(s)@ + texto_centavos(c as nat));
}

/// The record of a payment, as the failed-payments file holds it.
pub fn formatear_pago(pago: &Pago) -> (r: String)
    ensures
        r@ == texto_pago(*pago),
{
    let mut r = String::new();
    escribir_decimal(&mut r, pago.get_id() as u64);
    agregar_caracter(&mut r, ',');
    escribir_centavos(&mut r, pago.get_monto_aerolinea());
    agregar_caracter(&mut r, ',');
    escribir_centavos(&mut r, pago.get_monto_hotel());
    assert(r@ =~= texto_pago(*pago));
    r
}

/// The record `s` is not of a payment before `buscado`.
pub open spec fn no_anterior(s: Seq<char>, buscado: Option<usize>) -> bool {
    match (registro_pago(s), buscado) {
        (Some(r), Some(b)) => r.0 >= b,
        _ => true,
    }
}

/// The payment that a reader of the payments file takes from `linea` when it
/// looks for the payment `buscado` or a later one: records of earlier
/// payments and lines that are no records are passed over.
pub fn seleccionar_pago(linea: &str, buscado: Option<usize>) -> (r: Option<Pago>)
    ensures
        r is Some <==> es_registro_pago(linea@) && no_anterior(linea@, buscado),
        r matches Some(p) ==> pago_de(p, linea@),
{
    match parsear_pago(linea) {
        Some(p) => match buscado {
            Some(b) => if p.get_id() < b {
                None
            } else {
                Some(p)
            },
            None => Some(p),
        },
        None => None,
    }
}

/// The payment id of a record.
pub open spec fn id_registro(s: Seq<char>) -> nat {
    match registro_pago(s) {
        Some(r) => r.0,
        None => 0,
    }
}

/// The failed payment `id` taken out of the records `lineas`, with the
/// records that stay: the records of other payments. Lines that are no
/// records leave too; when several records hold `id`, the last one is
/// taken.
pub open spec fn extraccion(lineas: Seq<Seq<char>>, id: usize) -> (Option<Seq<char>>, Seq<
    Seq<char>,
>)
    decreases lineas.len(),
{
    if lineas.len() == 0 {
        (None, Seq::empty())
    } else {
        let (p, resto) = extraccion(lineas.drop_last(), id);
        let l = lineas.last();
        if !es_registro_pago(l) {
            (p, resto)
        } else if id_registro(l) == id {
            (Some(l), resto)
        } else {
            (p, resto.push(l))
        }
    }
}

/// Takes the failed payment `id` out of the records of the failed-payments
/// file: gives the payment, if a record holds it, and the lines to write
/// back in its place.
pub fn extraer_fallido(lineas: &Vec<String>, id: usize) -> (r: (Option<Pago>, Vec<String>))
    ensures
        ({
            let (p, resto) = extraccion(lineas@.map_values(|l: String| l@), id);
            &&& r.0 is Some <==> p is Some
            &&& r.0 matches Some(pago) ==> pago_de(pago, p->0)
            &&& r.1@.map_values(|l: String| l@) == resto
        }),
{
    let ghost todas = lineas@.map_values(|l: String| l@);
    let mut pago: Option<Pago> = None;
    let mut quedan: Vec<String> = Vec::new();
    let mut i: usize = 0;
    while i < lineas.len()
        invariant
            i <= lineas.len(),
            todas == lineas@.map_values(|l: String| l@),
            ({
                let (p, resto) = extraccion(todas.subrange(0, i as int), id);
                &&& pago is Some <==> p is Some
                &&& pago matches Some(x) ==> pago_de(x, p->0)
                &&& quedan@.map_values(|l: String| l@) == resto
            }),
        decreases lineas.len() - i,
    {
        proof {
            assert(todas.subrange(0, i + 1).drop_last() =~= todas.subrange(0, i as int));
        }
        let ghost antes = quedan@;
        match parsear_pago(lineas[i].as_str()) {
            Some(p) => {
                if p.get_id() == id {
                    pago = Some(p);
                } else {
                    quedan.push(lineas[i].clone());
                    proof {
                        assert(quedan@.map_values(|l: String| l@) =~= antes.map_values(
                            |l: String| l@,
                        ).push(lineas@[i as int]@));
                    }
                }
            },
            None => {},
        }
        i = i + 1;
    }
    proof {
        assert(todas.subrange(0, lineas.len() as int) =~= todas);
    }
    (pago, quedan)
}

} // verus!
