//! Errors of the node.
use vstd::prelude::*;

verus! {

/// An internal error, identified by its text.
#[derive(Debug, Clone)]
pub struct ErrorInterno {
    mensaje: String,
}

impl View for ErrorInterno {
    type V = Seq<char>;

    closed spec fn view(&self) -> Seq<char> {
        self.mensaje@
    }
}

impl ErrorInterno {
    /// An internal error whose text is `msg`.
    pub fn new(msg: &str) -> (r: ErrorInterno)
        ensures
            r@ == msg@,
    {
        ErrorInterno { mensaje: String::from_str(msg) }
    }

    /// An internal error whose text is `mensaje`.
    pub fn desde(mensaje: String) -> (r: ErrorInterno)
        ensures
            r@ == mensaje@,
    {
        ErrorInterno { mensaje }
    }

    /// The text of the error.
    pub fn mensaje(&self) -> (r: &str)
        ensures
            r@ == self@,
    {
        self.mensaje.as_str()
    }
}

/// The errors that the node's operations report.
#[derive(Debug, Clone)]
pub enum ErrorApp {
    /// A protocol or invariant failure, with its text.
    Interno(ErrorInterno),
    /// A failure of the transport or of the file system, with its text.
    ErrorIO(ErrorInterno),
    /// Received bytes that are not UTF-8.
    ErrorUtf8,
    /// A numeric field that is missing or is not a decimal number that fits.
    ErrorParseoInt,
    /// An amount field that is missing or is not a decimal amount that fits.
    ErrorParseoMonto,
}

pub type Resultado<T> = Result<T, ErrorApp>;

/// Why a text could not be decoded.
pub enum Fallo {
    /// Its first field names no known code.
    Codigo(Seq<char>),
    /// A numeric field is missing or malformed.
    Entero,
    /// The amount field is missing or malformed.
    Monto,
}

/// The text of the error for an unknown code `t`.
pub open spec fn texto_codigo_erroneo(t: Seq<char>) -> Seq<char> {
    "Mensaje erroneo: "@ + t
}

/// `r` is the outcome that `e` describes.
pub open spec fn resultado_es<T>(r: Resultado<T>, e: Result<T, Fallo>) -> bool {
    match e {
        Ok(v) => r == Ok::<T, ErrorApp>(v),
        Err(Fallo::Codigo(t)) => r matches Err(ErrorApp::Interno(i)) && i@ == texto_codigo_erroneo(
            t,
        ),
        Err(Fallo::Entero) => r matches Err(ErrorApp::ErrorParseoInt),
        Err(Fallo::Monto) => r matches Err(ErrorApp::ErrorParseoMonto),
    }
}

/// The error for an unknown code written `t`.
pub fn error_codigo<T>(t: &Vec<char>) -> (r: Resultado<T>)
    ensures
        resultado_es(r, Err(Fallo::Codigo(t@))),
{
    let mut m = String::from_str("Mensaje erroneo: ");
    crate::texto::agregar_caracteres(&mut m, t);
    Err(ErrorApp::Interno(ErrorInterno::desde(m)))
}

} // verus!
