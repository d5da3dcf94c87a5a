//! Messages of the leader election protocol and their wire text
//! (`<CODE> <sender_id>`).
use vstd::prelude::*;
use crate::error::{error_codigo, resultado_es, ErrorApp, Fallo, Resultado};
use crate::texto::{
    campos, caracteres, decimal, dividir, es_numero, es_palabra, escribir_decimal,
    lema_campos_concat, lema_campos_uno, lema_decimal, lema_numero_sin, parsear_usize, valor,
};

verus! {

/// The code of an election message.
/// OK: a node of higher priority is alive and takes over the election.
/// ELECCION: calls an election.
/// COORDINADOR: announces a new leader.
/// VERIFICAR: asks the leader whether it is still alive.
#[derive(Clone, Copy, PartialEq, Eq, Structural, Debug)]
pub enum CodigoLider {
    OK,
    ELECCION,
    COORDINADOR,
    VERIFICAR,
}

/// A message of the election protocol.
#[derive(Clone, Copy, PartialEq, Eq, Structural, Debug)]
pub struct MensajeLider {
    pub codigo: CodigoLider,
    pub id_emisor: usize,
}

/// The wire word of each code.
pub open spec fn etiqueta_lider(c: CodigoLider) -> Seq<char> {
    match c {
        CodigoLider::OK => "OK"@,
        CodigoLider::ELECCION => "ELECTION"@,
        CodigoLider::COORDINADOR => "COORDINADOR"@,
        CodigoLider::VERIFICAR => "VERIFICAR"@,
    }
}

/// The code whose wire word is `t`.
pub open spec fn codigo_lider(t: Seq<char>) -> Option<CodigoLider> {
    if t == "OK"@ {
        Some(CodigoLider::OK)
    } else if t == "ELECTION"@ {
        Some(CodigoLider::ELECCION)
    } else if t == "COORDINADOR"@ {
        Some(CodigoLider::COORDINADOR)
    } else if t == "VERIFICAR"@ {
        Some(CodigoLider::VERIFICAR)
    } else {
        None
    }
}

/// The wire text of `m`.
pub open spec fn texto_lider(m: MensajeLider) -> Seq<char> {
    etiqueta_lider(m.codigo) + seq![' '] + decimal(m.id_emisor as nat)
}

/// What decoding the text `s` gives: the code from the first field and the
/// sender from the second; fields after those are not read.
pub open spec fn decodificacion_lider(s: Seq<char>) -> Result<MensajeLider, Fallo> {
    let f = campos(s, ' ');
    match codigo_lider(f[0]) {
        None => Err(Fallo::Codigo(f[0])),
        Some(c) => if f.len() >= 2 && es_numero(f[1]) && valor(f[1]) <= usize::MAX {
            Ok(MensajeLider { codigo: c, id_emisor: valor(f[1]) as usize })
        } else {
            Err(Fallo::Entero)
        },
    }
}

impl MensajeLider {
    /// A message with code `codigo` from node `id_emisor`.
    pub fn new(codigo: CodigoLider, id_emisor: usize) -> (r: Self)
        ensures
            r == (MensajeLider { codigo, id_emisor }),
    {
        Self { codigo, id_emisor }
    }

    /// The wire text of the message.
    pub fn codificar(&self) -> (r: String)
        ensures
            r@ == texto_lider(*self),
    {
        let mut r = match self.codigo {
            CodigoLider::OK => String::from_str("OK "),
            CodigoLider::ELECCION => String::from_str("ELECTION "),
            CodigoLider::COORDINADOR => String::from_str("COORDINADOR "),
            CodigoLider::VERIFICAR => String::from_str("VERIFICAR "),
        };
        proof {
            reveal_strlit("OK ");
            reveal_strlit("ELECTION ");
            reveal_strlit("COORDINADOR ");
            reveal_strlit("VERIFICAR ");
            reveal_strlit("OK");
            reveal_strlit("ELECTION");
            reveal_strlit("COORDINADOR");
            reveal_strlit("VERIFICAR");
            assert(r@ =~= etiqueta_lider(self.codigo) + seq![' ']);
        }
        escribir_decimal(&mut r, self.id_emisor as u64);
        r
    }

    /// Reads a message from its wire text: an unknown code or a sender that
    /// is not a decimal number is an error.
    pub fn decodificar(mensaje_codificado: &String) -> (r: Resultado<MensajeLider>)
        ensures
            resultado_es(r, decodificacion_lider(mensaje_codificado@)),
    {
        let texto = caracteres(mensaje_codificado.as_str());
        let f = dividir(&texto, ' ');
        proof {
            crate::texto::lema_campos_no_vacio(texto@, ' ');
        }
        let codigo = if es_palabra(&f[0], "OK") {
            CodigoLider::OK
        } else if es_palabra(&f[0], "ELECTION") {
            CodigoLider::ELECCION
        } else if es_palabra(&f[0], "COORDINADOR") {
            CodigoLider::COORDINADOR
        } else if es_palabra(&f[0], "VERIFICAR") {
            CodigoLider::VERIFICAR
        } else {
            return error_codigo(&f[0]);
        };
        if f.len() < 2 {
            return Err(ErrorApp::ErrorParseoInt);
        }
        match parsear_usize(&f[1]) {
            Some(id) => Ok(MensajeLider::new(codigo, id)),
            None => Err(ErrorApp::ErrorParseoInt),
        }
    }
}

/// Decoding the wire text of a message gives the message back.
pub proof fn lema_ida_y_vuelta_lider(m: MensajeLider)
    ensures
        decodificacion_lider(texto_lider(m)) == Ok::<MensajeLider, Fallo>(m),
{
    reveal_strlit("OK");
    reveal_strlit("ELECTION");
    reveal_strlit("COORDINADOR");
    reveal_strlit("VERIFICAR");
    let e = etiqueta_lider(m.codigo);
    let d = decimal(m.id_emisor as nat);
    lema_decimal(m.id_emisor as nat);
    lema_numero_sin(d, ' ');
    assert(crate::texto::sin(e, ' '));
    lema_campos_concat(e, ' ', d);
    lema_campos_uno(e, ' ');
    lema_campos_uno(d, ' ');
    assert(campos(texto_lider(m), ' ') =~= seq![e, d]);
}

} // verus!
