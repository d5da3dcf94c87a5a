//! What the leader does next: resume the last transaction, settle the next
//! payment of the input, retry a failed payment on the operator's command,
//! or leave the leader loop.
use vstd::prelude::*;
use crate::comando::Comando;
use crate::error::Resultado;
use crate::pago::Pago;
use crate::log::{siguiente_id, EstadoTransaccion, Log, Transaccion};

verus! {

/// Where the node's main loop goes.
/// FinEntrada: the payments input is exhausted; only retries remain.
/// CambioLider: the node (again) became leader and resumes from the log.
/// Finalizar: the operator asked the node to stop.
#[derive(Clone, Copy, PartialEq, Eq, Structural, Debug)]
pub enum EstadoApp {
    FinEntrada,
    CambioLider,
    Finalizar,
}

/// The next piece of work of the leader.
pub enum Tarea {
    /// Settle this transaction with the payment `id_pago` of the input.
    Pago(Transaccion),
    /// Settle this transaction with the failed payment `id_pago`.
    Reintento(Transaccion),
    /// Leave the leader loop for this state.
    Cambiar(EstadoApp),
}

/// The transaction of the payment `id_pago`, to take `prox` afterwards.
pub open spec fn nueva(log: Log, id_pago: usize, prox: usize) -> Transaccion {
    Transaccion {
        id: siguiente_id(log) as usize,
        id_pago,
        id_pago_prox: prox,
        estado: EstadoTransaccion::Prepare,
        pago: None,
    }
}

/// The leader's position in the payments input: the next payment to take.
pub struct ProcesoLider {
    prox_pago: usize,
}

impl ProcesoLider {
    pub closed spec fn prox(&self) -> usize {
        self.prox_pago
    }

    /// Resumes where the log left off: the next payment is the one the last
    /// transaction named, or the first; the last transaction, if any, is to
    /// be submitted again.
    pub fn reanudar(log: &Log) -> (r: (ProcesoLider, Option<Transaccion>))
        ensures
            r.1 == log.ultima(),
            r.0.prox() == match log.ultima() {
                Some(t) => t.id_pago_prox,
                None => 1,
            },
    {
        let ultima = log.ultima_transaccion();
        let prox_pago = match ultima {
            Some(t) => t.id_pago_prox,
            None => 1,
        };
        (ProcesoLider { prox_pago }, ultima)
    }

    /// The next task, given the operator's pending command: a stop command
    /// leaves the loop, a retry settles the failed payment, and without a
    /// command the next payment of the input is taken.
    pub fn siguiente(&mut self, log: &Log, comando: Option<Comando>) -> (r: Tarea)
        requires
            log.wf(),
            siguiente_id(*log) <= usize::MAX,
        ensures
            match comando {
                Some(Comando::Finalizar) => r matches Tarea::Cambiar(EstadoApp::Finalizar)
                    && final(self).prox() == old(self).prox(),
                Some(Comando::Reintentar { id }) => r matches Tarea::Reintento(t) && t == nueva(
                    *log,
                    id,
                    old(self).prox(),
                ) && final(self).prox() == old(self).prox(),
                None => if old(self).prox() == usize::MAX {
                    r matches Tarea::Cambiar(EstadoApp::FinEntrada)
                } else {
                    r matches Tarea::Pago(t) && t == nueva(
                        *log,
                        old(self).prox(),
                        (old(self).prox() + 1) as usize,
                    ) && final(self).prox() == old(self).prox() + 1
                },
            },
    {
        match comando {
            Some(Comando::Finalizar) => Tarea::Cambiar(EstadoApp::Finalizar),
            Some(Comando::Reintentar { id }) => Tarea::Reintento(
                log.nueva_transaccion(id, self.prox_pago),
            ),
            None => {
                if self.prox_pago == usize::MAX {
                    return Tarea::Cambiar(EstadoApp::FinEntrada);
                }
                let t = log.nueva_transaccion(self.prox_pago, self.prox_pago + 1);
                self.prox_pago = self.prox_pago + 1;
                Tarea::Pago(t)
            },
        }
    }
}

/// What the leader does with a task once its payment was looked up.
pub enum Paso {
    /// Settle this transaction.
    Liquidar(Transaccion),
    /// Nothing to settle; go on with the next task.
    Omitir,
    /// Leave the leader loop for this state.
    Cambiar(EstadoApp),
}

/// The transaction `t` with the payment `p` attached.
pub open spec fn con_pago(t: Transaccion, p: Pago) -> Transaccion {
    Transaccion { pago: Some(p), ..t }
}

/// Attaches the payment found for a task. When the input holds no further
/// payment it is exhausted and the loop goes to FinEntrada; a retry whose
/// failed payment is not found is passed over.
pub fn completar_tarea(tarea: Tarea, pago: Option<Pago>) -> (r: Paso)
    ensures
        match (tarea, pago) {
            (Tarea::Cambiar(e), _) => r matches Paso::Cambiar(x) && x == e,
            (Tarea::Pago(t), Some(p)) => r matches Paso::Liquidar(x) && x == con_pago(t, p),
            (Tarea::Pago(_), None) => r matches Paso::Cambiar(EstadoApp::FinEntrada),
            (Tarea::Reintento(t), Some(p)) => r matches Paso::Liquidar(x) && x == con_pago(t, p),
            (Tarea::Reintento(_), None) => r is Omitir,
        },
{
    match tarea {
        Tarea::Cambiar(e) => Paso::Cambiar(e),
        Tarea::Pago(mut t) => match pago {
            Some(p) => {
                t.pago = Some(p);
                Paso::Liquidar(t)
            },
            None => Paso::Cambiar(EstadoApp::FinEntrada),
        },
        Tarea::Reintento(mut t) => match pago {
            Some(p) => {
                t.pago = Some(p);
                Paso::Liquidar(t)
            },
            None => Paso::Omitir,
        },
    }
}

/// The payment to record as failed after settling `t`: its payment, when
/// the settlement failed.
pub fn pago_fallido(t: &Transaccion, resultado: &Resultado<()>) -> (r: Option<Pago>)
    ensures
        r == (if resultado is Err {
            t.pago
        } else {
            None
        }),
{
    match resultado {
        Ok(_) => None,
        Err(_) => t.pago,
    }
}

} // verus!
