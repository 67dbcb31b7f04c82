use vstd::prelude::*;

use crate::job::SendError;
use crate::session::SpoolError;

verus! {

/// The character of a decimal digit.
pub open spec fn digit(d: nat) -> char {
    seq!['0', '1', '2', '3', '4', '5', '6', '7', '8', '9'][d as int]
}

/// Decimal notation of a number, without sign or leading zeros.
pub open spec fn decimal(n: nat) -> Seq<char>
    decreases n,
{
    if n < 10 {
        seq![digit(n)]
    } else {
        decimal(n / 10).push(digit(n % 10))
    }
}

/// Relies on std's `ToString` for `u32`, through its `Display`: the number
/// in decimal, with no sign and no padding.
#[verifier::external_body]
fn decimal_text(n: u32) -> (r: String)
    ensures
        r@ == decimal(n as nat),
{
    n.to_string()
}

/// The text shown to the operator for a failed job on `printer`: a fixed
/// phrase for each stage, followed by the system's description or code.
pub open spec fn message_text(e: SendError, printer: Seq<char>) -> Seq<char> {
    match e {
        SendError::CreateFile(d) => "No se pudo crear el archivo: "@ + d@,
        SendError::WriteFile(d) => "Error escribiendo archivo: "@ + d@,
        SendError::Unsupported => "Impresión real solo soportada en Windows"@,
        SendError::Spool(s) => match s {
            SpoolError::InvalidName => "Nombre de impresora inválido"@,
            SpoolError::Open { code } => "No se pudo abrir la impresora '"@ + printer
                + "'. Error: "@ + decimal(code as nat),
            SpoolError::StartDocument { code } => "No se pudo iniciar el documento de impresión. Error: "@
                + decimal(code as nat),
            SpoolError::StartPage { code } => "No se pudo iniciar la página de impresión. Error: "@
                + decimal(code as nat),
            SpoolError::Write { code } => "Error al escribir en la impresora. Error: "@ + decimal(
                code as nat,
            ),
        },
    }
}

/// A phrase followed by a code in decimal.
fn with_code(phrase: &str, code: u32) -> (r: String)
    ensures
        r@ == phrase@ + decimal(code as nat),
{
    let mut text = String::from_str(phrase);
    let digits = decimal_text(code);
    text.append(digits.as_str());
    text
}

impl SendError {
    /// The text shown to the operator when a job on `printer_name` fails.
    pub fn message(&self, printer_name: &str) -> (r: String)
        ensures
            r@ == message_text(*self, printer_name@),
    {
        match self {
            SendError::CreateFile(d) => {
                let mut text = String::from_str("No se pudo crear el archivo: ");
                text.append(d.as_str());
                text
            },
            SendError::WriteFile(d) => {
                let mut text = String::from_str("Error escribiendo archivo: ");
                text.append(d.as_str());
                text
            },
            SendError::Unsupported => String::from_str("Impresión real solo soportada en Windows"),
            SendError::Spool(SpoolError::InvalidName) => String::from_str(
                "Nombre de impresora inválido",
            ),
            SendError::Spool(SpoolError::Open { code }) => {
                let mut text = String::from_str("No se pudo abrir la impresora '");
                text.append(printer_name);
                text.append("'. Error: ");
                let digits = decimal_text(*code);
                text.append(digits.as_str());
                text
            },
            SendError::Spool(SpoolError::StartDocument { code }) => with_code(
                "No se pudo iniciar el documento de impresión. Error: ",
                *code,
            ),
            SendError::Spool(SpoolError::StartPage { code }) => with_code(
                "No se pudo iniciar la página de impresión. Error: ",
                *code,
            ),
            SendError::Spool(SpoolError::Write { code }) => with_code(
                "Error al escribir en la impresora. Error: ",
                *code,
            ),
        }
    }
}

} // verus!
