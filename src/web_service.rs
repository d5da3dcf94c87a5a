//! A stakeholder (airline, hotel or bank) as a participant of the two-phase
//! commit: its state for each operation and its reply to each message.
//! Whoever runs it does the simulated work, draws whether taking the
//! resources works out, and sends the reply to its sender.
use vstd::prelude::*;
use std::collections::HashMap;
use crate::protocolo_transaccion::{CodigoTransaccion, MensajeTransaccion};

verus! {

broadcast use vstd::std_specs::hash::group_hash_axioms;

/// The state of an operation at a stakeholder.
/// Ready: the resources were taken.
/// Commit: the commit was made.
/// Abort: the abort was made, or the resources could not be taken.
#[derive(Clone, Copy, PartialEq, Eq, Structural, Debug)]
pub enum EstadoServicio {
    Ready,
    Commit,
    Abort,
}

/// What the stakeholder does about a message: whether it works first, and
/// the reply it sends back to the sender, if any.
pub struct Respuesta {
    pub trabajar: bool,
    pub mensaje: Option<MensajeTransaccion>,
}

/// For an operation in state `e`, the message code `c` leads to: the new
/// state (none: unchanged), the code of the reply (none: no reply), and
/// whether work is done first. `exito` decides a PREPARE of an unknown
/// operation.
pub open spec fn reaccion_servicio(
    e: Option<EstadoServicio>,
    c: CodigoTransaccion,
    exito: bool,
) -> (Option<EstadoServicio>, Option<CodigoTransaccion>, bool) {
    match c {
        CodigoTransaccion::PREPARE { .. } => match e {
            Some(EstadoServicio::Ready) => (
                Some(EstadoServicio::Ready),
                Some(CodigoTransaccion::READY),
                false,
            ),
            Some(EstadoServicio::Commit) => (
                Some(EstadoServicio::Commit),
                Some(CodigoTransaccion::COMMIT),
                false,
            ),
            Some(EstadoServicio::Abort) => (
                Some(EstadoServicio::Abort),
                Some(CodigoTransaccion::ABORT),
                false,
            ),
            None => if exito {
                (Some(EstadoServicio::Ready), Some(CodigoTransaccion::READY), true)
            } else {
                (Some(EstadoServicio::Abort), Some(CodigoTransaccion::ABORT), true)
            },
        },
        CodigoTransaccion::COMMIT => match e {
            Some(EstadoServicio::Ready) => (
                Some(EstadoServicio::Commit),
                Some(CodigoTransaccion::COMMIT),
                true,
            ),
            Some(EstadoServicio::Commit) => (
                Some(EstadoServicio::Commit),
                Some(CodigoTransaccion::COMMIT),
                false,
            ),
            _ => (None, None, false),
        },
        CodigoTransaccion::ABORT => match e {
            Some(EstadoServicio::Ready) => (
                Some(EstadoServicio::Abort),
                Some(CodigoTransaccion::ABORT),
                true,
            ),
            Some(EstadoServicio::Commit) => (None, None, false),
            _ => (Some(EstadoServicio::Abort), Some(CodigoTransaccion::ABORT), false),
        },
        CodigoTransaccion::READY => (None, None, false),
    }
}

/// Stakeholder `id` and the state of each operation it heard of.
pub struct WebService {
    id: usize,
    log: HashMap<usize, EstadoServicio>,
}

impl WebService {
    pub closed spec fn id(&self) -> usize {
        self.id
    }

    /// The state of each operation.
    pub closed spec fn estados(&self) -> Map<usize, EstadoServicio> {
        self.log@
    }

    pub open spec fn estado_de(&self, op: usize) -> Option<EstadoServicio> {
        if self.estados().contains_key(op) {
            Some(self.estados()[op])
        } else {
            None
        }
    }

    /// Stakeholder `id` (0 the airline, 1 the hotel, 2 the bank), knowing
    /// of no operation.
    pub fn new(id: usize) -> (r: Self)
        ensures
            r.id() == id,
            r.estados() == Map::<usize, EstadoServicio>::empty(),
    {
        WebService { id, log: HashMap::new() }
    }

    /// Handles a message of a coordinator. A repeated PREPARE gets the reply
    /// of the state reached; a new one takes the resources when `exito`.
    /// COMMIT and ABORT are made once and acknowledged each time; a COMMIT
    /// after an abort, an ABORT after a commit, and a COMMIT of an unknown
    /// operation get no reply.
    pub fn responder(&mut self, mensaje: MensajeTransaccion, exito: bool) -> (r: Respuesta)
        ensures
            final(self).id() == old(self).id(),
            ({
                let (nuevo, codigo, trabajar) = reaccion_servicio(
                    old(self).estado_de(mensaje.id_op),
                    mensaje.codigo,
                    exito,
                );
                &&& r.trabajar == trabajar
                &&& final(self).estados() == match nuevo {
                    Some(e) => old(self).estados().insert(mensaje.id_op, e),
                    None => old(self).estados(),
                }
                &&& r.mensaje == match codigo {
                    Some(c) => Some(
                        MensajeTransaccion { codigo: c, id_emisor: old(self).id(), id_op: mensaje.id_op },
                    ),
                    None => None,
                }
            }),
    {
        let previo = match self.log.get(&mensaje.id_op) {
            Some(e) => Some(*e),
            None => None,
        };
        let (nuevo, codigo, trabajar) = match mensaje.codigo {
            CodigoTransaccion::PREPARE { .. } => match previo {
                Some(EstadoServicio::Ready) => (
                    Some(EstadoServicio::Ready),
                    Some(CodigoTransaccion::READY),
                    false,
                ),
                Some(EstadoServicio::Commit) => (
                    Some(EstadoServicio::Commit),
                    Some(CodigoTransaccion::COMMIT),
                    false,
                ),
                Some(EstadoServicio::Abort) => (
                    Some(EstadoServicio::Abort),
                    Some(CodigoTransaccion::ABORT),
                    false,
                ),
                None => if exito {
                    (Some(EstadoServicio::Ready), Some(CodigoTransaccion::READY), true)
                } else {
                    (Some(EstadoServicio::Abort), Some(CodigoTransaccion::ABORT), true)
                },
            },
            CodigoTransaccion::COMMIT => match previo {
                Some(EstadoServicio::Ready) => (
                    Some(EstadoServicio::Commit),
                    Some(CodigoTransaccion::COMMIT),
                    true,
                ),
                Some(EstadoServicio::Commit) => (
                    Some(EstadoServicio::Commit),
                    Some(CodigoTransaccion::COMMIT),
                    false,
                ),
                _ => (None, None, false),
            },
            CodigoTransaccion::ABORT => match previo {
                Some(EstadoServicio::Ready) => (
                    Some(EstadoServicio::Abort),
                    Some(CodigoTransaccion::ABORT),
                    true,
                ),
                Some(EstadoServicio::Commit) => (None, None, false),
                _ => (Some(EstadoServicio::Abort), Some(CodigoTransaccion::ABORT), false),
            },
            CodigoTransaccion::READY => (None, None, false),
        };
        match nuevo {
            Some(e) => {
                self.log.insert(mensaje.id_op, e);
            },
            None => {},
        }
        let respuesta = match codigo {
            Some(c) => Some(MensajeTransaccion::new(c, self.id, mensaje.id_op)),
            None => None,
        };
        Respuesta { trabajar, mensaje: respuesta }
    }
}

} // verus!
