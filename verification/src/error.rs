//! The failures that the core reports, and the family each belongs to.

use vstd::prelude::*;

verus! {

/// The five families of failure. Nothing in the core retries any of them.
#[derive(Debug, Clone, Copy, PartialEq, Eq, Structural)]
pub enum ErrorKind {
    /// Missing or expired session, or a role that does not suffice.
    Auth,
    /// Input that is the caller's fault.
    Validation,
    /// The request collides with the current state; the caller may retry.
    Conflict,
    /// An identifier that names nothing.
    NotFound,
    /// The persistent store failed.
    Store,
}

/// Every failure of the core, one variant for each cause.
#[derive(Debug, Clone, Copy, PartialEq, Eq, Structural)]
pub enum PosError {
    /// No live session has this token.
    SessionInvalid,
    /// The session exists but its role is not the required one.
    NotAuthorized,
    /// No active user has this name in the tenant and branch.
    UserNotFound,
    /// The password does not match the stored hash.
    BadCredentials,
    /// An identifier is not twenty-four hexadecimal digits.
    InvalidId,
    /// A status name that is none of the known ones.
    InvalidStatus,
    /// A movement kind that is neither `IN` nor `OUT`.
    InvalidKind,
    /// A movement amount that is not positive.
    InvalidAmount,
    /// An opening float below zero.
    InvalidOpeningFloat,
    /// The first day of a range is not written as year, month and day.
    InvalidFromDate,
    /// The last day of a range is not written as year, month and day.
    InvalidToDate,
    /// An amount or a running total that does not fit in sixty-four bits.
    AmountOutOfRange,
    /// Cash handed over is less than the order's total.
    CashBelowTotal,
    /// A password that the hasher does not take.
    PasswordRejected,
    /// The tenant and branch already have an open shift.
    ShiftAlreadyOpen,
    /// The tenant and branch have no open shift.
    NoOpenShift,
    /// The shift was already closed.
    ShiftClosed,
    /// The shift got a movement while its close was being made.
    ShiftChanged,
    /// The day's order numbers are used up.
    SequenceExhausted,
    /// A freshly drawn token is already in use.
    TokenCollision,
    /// The user name is taken in this branch.
    UsernameTaken,
    /// No user has this identifier.
    NoSuchUser,
    /// No order has this identifier.
    OrderNotFound,
    /// No shift has this identifier.
    ShiftNotFound,
    /// No product has this identifier.
    ProductNotFound,
    /// The persistent store failed; the cause is not looked into.
    Store,
}

impl PosError {
    /// The family of this failure.
    pub open spec fn spec_kind(self) -> ErrorKind {
        match self {
            PosError::SessionInvalid => ErrorKind::Auth,
            PosError::NotAuthorized => ErrorKind::Auth,
            PosError::UserNotFound => ErrorKind::Auth,
            PosError::BadCredentials => ErrorKind::Auth,
            PosError::InvalidId => ErrorKind::Validation,
            PosError::InvalidStatus => ErrorKind::Validation,
            PosError::InvalidKind => ErrorKind::Validation,
            PosError::InvalidAmount => ErrorKind::Validation,
            PosError::InvalidOpeningFloat => ErrorKind::Validation,
            PosError::InvalidFromDate => ErrorKind::Validation,
            PosError::InvalidToDate => ErrorKind::Validation,
            PosError::AmountOutOfRange => ErrorKind::Validation,
            PosError::CashBelowTotal => ErrorKind::Validation,
            PosError::PasswordRejected => ErrorKind::Validation,
            PosError::ShiftAlreadyOpen => ErrorKind::Conflict,
            PosError::NoOpenShift => ErrorKind::Conflict,
            PosError::ShiftClosed => ErrorKind::Conflict,
            PosError::ShiftChanged => ErrorKind::Conflict,
            PosError::SequenceExhausted => ErrorKind::Conflict,
            PosError::TokenCollision => ErrorKind::Conflict,
            PosError::UsernameTaken => ErrorKind::Conflict,
            PosError::NoSuchUser => ErrorKind::NotFound,
            PosError::OrderNotFound => ErrorKind::NotFound,
            PosError::ShiftNotFound => ErrorKind::NotFound,
            PosError::ProductNotFound => ErrorKind::NotFound,
            PosError::Store => ErrorKind::Store,
        }
    }

    /// The family of this failure.
    #[verifier::when_used_as_spec(spec_kind)]
    pub fn kind(self) -> (k: ErrorKind)
        ensures
            k == self.spec_kind(),
    {
        match self {
            PosError::SessionInvalid => ErrorKind::Auth,
            PosError::NotAuthorized => ErrorKind::Auth,
            PosError::UserNotFound => ErrorKind::Auth,
            PosError::BadCredentials => ErrorKind::Auth,
            PosError::InvalidId => ErrorKind::Validation,
            PosError::InvalidStatus => ErrorKind::Validation,
            PosError::InvalidKind => ErrorKind::Validation,
            PosError::InvalidAmount => ErrorKind::Validation,
            PosError::InvalidOpeningFloat => ErrorKind::Validation,
            PosError::InvalidFromDate => ErrorKind::Validation,
            PosError::InvalidToDate => ErrorKind::Validation,
            PosError::AmountOutOfRange => ErrorKind::Validation,
            PosError::CashBelowTotal => ErrorKind::Validation,
            PosError::PasswordRejected => ErrorKind::Validation,
            PosError::ShiftAlreadyOpen => ErrorKind::Conflict,
            PosError::NoOpenShift => ErrorKind::Conflict,
            PosError::ShiftClosed => ErrorKind::Conflict,
            PosError::ShiftChanged => ErrorKind::Conflict,
            PosError::SequenceExhausted => ErrorKind::Conflict,
            PosError::TokenCollision => ErrorKind::Conflict,
            PosError::UsernameTaken => ErrorKind::Conflict,
            PosError::NoSuchUser => ErrorKind::NotFound,
            PosError::OrderNotFound => ErrorKind::NotFound,
            PosError::ShiftNotFound => ErrorKind::NotFound,
            PosError::ProductNotFound => ErrorKind::NotFound,
            PosError::Store => ErrorKind::Store,
        }
    }

    /// The text shown to the operator for this failure.
    pub open spec fn spec_message(self) -> Seq<char> {
        match self {
            PosError::SessionInvalid => "Sesión inválida o expirada"@,
            PosError::NotAuthorized => "No autorizado: requiere rol ADMIN"@,
            PosError::UserNotFound => "Usuario no encontrado o inactivo"@,
            PosError::BadCredentials => "Credenciales inválidas"@,
            PosError::InvalidId => "Identificador inválido"@,
            PosError::InvalidStatus => "Estado inválido"@,
            PosError::InvalidKind => "kind inválido"@,
            PosError::InvalidAmount => "Monto inválido"@,
            PosError::InvalidOpeningFloat => "Monto de apertura inválido"@,
            PosError::InvalidFromDate => "from_date inválido"@,
            PosError::InvalidToDate => "to_date inválido"@,
            PosError::AmountOutOfRange => "Monto fuera de rango"@,
            PosError::CashBelowTotal => "El monto en efectivo no puede ser menor al total"@,
            PosError::PasswordRejected => "Contraseña inválida"@,
            PosError::ShiftAlreadyOpen => "Ya existe una caja abierta"@,
            PosError::NoOpenShift => "No se puede despachar: no hay caja abierta"@,
            PosError::ShiftClosed => "Caja no encontrada o ya cerrada"@,
            PosError::ShiftChanged => "La caja cambió durante el cierre; vuelva a intentarlo"@,
            PosError::SequenceExhausted => "No quedan números de pedido para hoy"@,
            PosError::TokenCollision => "No se pudo crear la sesión"@,
            PosError::UsernameTaken => "Username ya existe en esta sucursal"@,
            PosError::NoSuchUser => "Usuario no encontrado"@,
            PosError::OrderNotFound => "Pedido no encontrado"@,
            PosError::ShiftNotFound => "Caja no encontrada o ya cerrada"@,
            PosError::ProductNotFound => "Producto no encontrado"@,
            PosError::Store => "Error de almacenamiento"@,
        }
    }

    /// The text shown to the operator for this failure.
    pub fn message(self) -> (text: String)
        ensures
            text@ == self.spec_message(),
    {
        let text: &str = match self {
            PosError::SessionInvalid => "Sesión inválida o expirada",
            PosError::NotAuthorized => "No autorizado: requiere rol ADMIN",
            PosError::UserNotFound => "Usuario no encontrado o inactivo",
            PosError::BadCredentials => "Credenciales inválidas",
            PosError::InvalidId => "Identificador inválido",
            PosError::InvalidStatus => "Estado inválido",
            PosError::InvalidKind => "kind inválido",
            PosError::InvalidAmount => "Monto inválido",
            PosError::InvalidOpeningFloat => "Monto de apertura inválido",
            PosError::InvalidFromDate => "from_date inválido",
            PosError::InvalidToDate => "to_date inválido",
            PosError::AmountOutOfRange => "Monto fuera de rango",
            PosError::CashBelowTotal => "El monto en efectivo no puede ser menor al total",
            PosError::PasswordRejected => "Contraseña inválida",
            PosError::ShiftAlreadyOpen => "Ya existe una caja abierta",
            PosError::NoOpenShift => "No se puede despachar: no hay caja abierta",
            PosError::ShiftClosed => "Caja no encontrada o ya cerrada",
            PosError::ShiftChanged => "La caja cambió durante el cierre; vuelva a intentarlo",
            PosError::SequenceExhausted => "No quedan números de pedido para hoy",
            PosError::TokenCollision => "No se pudo crear la sesión",
            PosError::UsernameTaken => "Username ya existe en esta sucursal",
            PosError::NoSuchUser => "Usuario no encontrado",
            PosError::OrderNotFound => "Pedido no encontrado",
            PosError::ShiftNotFound => "Caja no encontrada o ya cerrada",
            PosError::ProductNotFound => "Producto no encontrado",
            PosError::Store => "Error de almacenamiento",
        };
        text.to_owned()
    }
}

} // verus!
