//! Operator commands: `R <payment_id>` retries a failed payment, `F` stops
//! the node.
use vstd::prelude::*;
use crate::error::{error_codigo, resultado_es, ErrorApp, Fallo, Resultado};
use crate::protocolo_transaccion::es_usize;
use crate::texto::{campos, caracteres, dividir, es_palabra, lema_campos_no_vacio, parsear_usize, valor};

verus! {

/// An operator command.
/// Reintentar: retry the failed payment `id`.
/// Finalizar: stop the node.
#[derive(Clone, Copy, PartialEq, Eq, Structural, Debug)]
pub enum Comando {
    Reintentar { id: usize },
    Finalizar,
}

/// What decoding the operator input `s` gives: the first field names the
/// command, and a retry takes its payment id from the second. Fields after
/// those are not read.
pub open spec fn decodificacion_comando(s: Seq<char>) -> Result<Comando, Fallo> {
    let f = campos(s, ' ');
    if f[0] == "R"@ {
        if f.len() >= 2 && es_usize(f[1]) {
            Ok(Comando::Reintentar { id: valor(f[1]) as usize })
        } else {
            Err(Fallo::Entero)
        }
    } else if f[0] == "F"@ {
        Ok(Comando::Finalizar)
    } else {
        Err(Fallo::Codigo(f[0]))
    }
}

impl Comando {
    /// Reads a command from the operator's input; any other input is an
    /// error.
    pub fn decodificar(mensaje_codificado: &str) -> (r: Resultado<Comando>)
        ensures
            resultado_es(r, decodificacion_comando(mensaje_codificado@)),
    {
        let texto = caracteres(mensaje_codificado);
        let f = dividir(&texto, ' ');
        proof {
            lema_campos_no_vacio(texto@, ' ');
        }
        if es_palabra(&f[0], "R") {
            if f.len() < 2 {
                return Err(ErrorApp::ErrorParseoInt);
            }
            match parsear_usize(&f[1]) {
                Some(id) => Ok(Comando::Reintentar { id }),
                None => Err(ErrorApp::ErrorParseoInt),
            }
        } else if es_palabra(&f[0], "F") {
            Ok(Comando::Finalizar)
        } else {
            error_codigo(&f[0])
        }
    }
}

} // verus!
