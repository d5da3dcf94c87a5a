//! A payment-settlement node: a bully leader election that keeps one
//! coordinator among the replicas, and a two-phase commit coordinator that
//! settles each payment with its airline, hotel and bank, recording every
//! state in a write-ahead log from which it recovers.
//!
//! The modules hold the decisions and formats, with their contracts; the
//! waiting, timers, sockets and files are left to whoever runs them.

pub mod aplicacion;
pub mod comando;
pub mod coordinador;
pub mod dns;
pub mod eleccion_lider;
pub mod error;
pub mod log;
pub mod pago;
pub mod protocolo_lider;
pub mod protocolo_transaccion;
pub mod texto;
pub mod web_service;
