//! Payroll figures under Brazilian labour law, computed exactly.
//!
//! Amounts of money enter as whole centavos and leave as exact fractions
//! ([`Quantia`]); nothing is rounded on the way. Every operation on a
//! [`Salario`] is proved to return the value that the real-number formulas of
//! [`modelo`] give for the record.

pub mod faixas;
pub mod modelo;
pub mod propriedades;
pub mod quantia;
pub mod salario;

pub use quantia::Quantia;
pub use salario::Salario;
