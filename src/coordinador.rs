//! The two-phase commit coordinator, as a state machine. `submit` starts a
//! transaction and `recibir` takes the outcome of each broadcast; both
//! return the next action: lines to append to the log file, then either a
//! batch of messages to send to the three stakeholders (airline, hotel,
//! bank) or the outcome of the submission. Whoever runs it writes the lines
//! before it sends anything.
use vstd::prelude::*;
use crate::error::{ErrorApp, ErrorInterno, Resultado};
use crate::log::{
    con_estado, insercion, lema_ida_y_vuelta_registro, linea_registro, texto_registro, vista_linea, EstadoTransaccion, Log, Transaccion,
};
use crate::protocolo_transaccion::{mismo_mensaje, CodigoTransaccion, MensajeTransaccion};

verus! {

/// Number of stakeholders of every payment.
pub const WEBSERVICES: usize = 3;

/// What the coordinator is broadcasting.
#[derive(Clone, Copy, PartialEq, Eq, Structural, Debug)]
pub enum Fase {
    Prepare,
    Commit,
    Abort,
}

/// What the runner of the coordinator does next.
pub enum Accion {
    /// Append `lineas` to the log file, then send `mensajes[i]` to
    /// stakeholder `i` and wait for one reply from each.
    Enviar { lineas: Vec<String>, mensajes: Vec<MensajeTransaccion> },
    /// Append `lineas` to the log file; the submission ends with `resultado`.
    Terminar { lineas: Vec<String>, resultado: Resultado<()> },
}

/// What came of a broadcast.
pub enum Evento {
    /// One reply from each stakeholder, in stakeholder order.
    Respuestas(Vec<MensajeTransaccion>),
    /// Not every stakeholder replied in time.
    Timeout,
    /// A message could not be sent.
    ErrorEnvio(ErrorApp),
}

pub open spec fn estado_de_fase(f: Fase) -> EstadoTransaccion {
    match f {
        Fase::Prepare => EstadoTransaccion::Prepare,
        Fase::Commit => EstadoTransaccion::Commit,
        Fase::Abort => EstadoTransaccion::Abort,
    }
}

/// The PREPARE of each stakeholder for `t`: the airline is asked for the
/// airline amount, the hotel for the hotel amount, the bank for both.
pub open spec fn mensajes_prepare(id: usize, t: Transaccion) -> Seq<MensajeTransaccion> {
    let p = t.pago->0;
    seq![
        MensajeTransaccion { codigo: CodigoTransaccion::PREPARE { monto: p.aerolinea() as u64 }, id_emisor: id, id_op: t.id },
        MensajeTransaccion { codigo: CodigoTransaccion::PREPARE { monto: p.hotel() as u64 }, id_emisor: id, id_op: t.id },
        MensajeTransaccion { codigo: CodigoTransaccion::PREPARE { monto: p.total() as u64 }, id_emisor: id, id_op: t.id },
    ]
}

/// The same message for every stakeholder.
pub open spec fn mensajes_difusion(m: MensajeTransaccion) -> Seq<MensajeTransaccion> {
    seq![m, m, m]
}

/// The batch that the phase `f` broadcasts for `t`.
pub open spec fn lote_de(id: usize, t: Transaccion, f: Fase) -> Seq<MensajeTransaccion> {
    match f {
        Fase::Prepare => mensajes_prepare(id, t),
        Fase::Commit => mensajes_difusion(
            MensajeTransaccion { codigo: CodigoTransaccion::COMMIT, id_emisor: id, id_op: t.id },
        ),
        Fase::Abort => mensajes_difusion(
            MensajeTransaccion { codigo: CodigoTransaccion::ABORT, id_emisor: id, id_op: t.id },
        ),
    }
}

/// The reply that the phase `f` waits for from every stakeholder.
pub open spec fn esperado_de(id: usize, t: Transaccion, f: Fase) -> MensajeTransaccion {
    let codigo = match f {
        Fase::Prepare => CodigoTransaccion::READY,
        Fase::Commit => CodigoTransaccion::COMMIT,
        Fase::Abort => CodigoTransaccion::ABORT,
    };
    MensajeTransaccion { codigo, id_emisor: id, id_op: t.id }
}

/// Every reply matches the expected one, one per stakeholder.
pub open spec fn todas_esperadas(rs: Seq<MensajeTransaccion>, e: MensajeTransaccion) -> bool {
    rs.len() == WEBSERVICES && forall|i: int| 0 <= i < rs.len() ==> #[trigger] mismo_mensaje(
        rs[i],
        e,
    )
}

pub open spec fn vista_lineas(v: Vec<String>) -> Seq<Seq<char>> {
    v@.map_values(|l: String| l@)
}

/// The log lines that an action asks to append.
pub open spec fn lineas_de(a: Accion) -> Seq<Seq<char>> {
    match a {
        Accion::Enviar { lineas, .. } => vista_lineas(lineas),
        Accion::Terminar { lineas, .. } => vista_lineas(lineas),
    }
}

/// The action broadcasts the batch `m` after appending `lineas`.
pub open spec fn envia(a: Accion, m: Seq<MensajeTransaccion>) -> bool {
    a matches Accion::Enviar { mensajes, .. } && mensajes@ == m
}

/// `l` is a record of the transaction `id` in one of the states `estados`.
pub open spec fn registro_con(l: Seq<char>, id: usize, estados: Set<EstadoTransaccion>) -> bool {
    linea_registro(l) matches Some(r) && r.id == id && estados.contains(r.estado)
}

/// Every line of `lineas` records the transaction `id` in one of `estados`.
pub open spec fn solo_estados(
    lineas: Seq<Seq<char>>,
    id: usize,
    estados: Set<EstadoTransaccion>,
) -> bool {
    forall|i: int| 0 <= i < lineas.len() ==> #[trigger] registro_con(lineas[i], id, estados)
}

/// The two-phase commit coordinator of node `id`, with the transaction it
/// is settling, if any.
pub struct CoordinadorTransaccion {
    id: usize,
    transaccion: Option<Transaccion>,
    fase: Fase,
    mensajes: Vec<MensajeTransaccion>,
    esperado: MensajeTransaccion,
    error: Option<ErrorApp>,
    decision: Ghost<Option<EstadoTransaccion>>,
}

impl CoordinadorTransaccion {
    pub closed spec fn id_nodo(&self) -> usize {
        self.id
    }

    /// The transaction being settled.
    pub closed spec fn en_curso(&self) -> Option<Transaccion> {
        self.transaccion
    }

    pub closed spec fn fase(&self) -> Fase {
        self.fase
    }

    /// The decision taken for the transaction being settled, once taken:
    /// Commit or Abort.
    pub closed spec fn decision(&self) -> Option<EstadoTransaccion> {
        self.decision@
    }

    pub closed spec fn wf(&self) -> bool {
        self.transaccion matches Some(t) ==> {
            &&& t.pago is Some
            &&& self.mensajes@ == lote_de(self.id, t, self.fase)
            &&& self.esperado == esperado_de(self.id, t, self.fase)
            &&& (self.fase == Fase::Abort) == self.error is Some
            &&& match self.fase {
                Fase::Prepare => self.decision@ is None,
                Fase::Commit => self.decision@ == Some(EstadoTransaccion::Commit),
                Fase::Abort => self.decision@ == Some(EstadoTransaccion::Abort),
            }
        }
    }

    /// The coordinator and the log agree: the log holds the transaction in
    /// settlement in the state of the current phase.
    pub open spec fn coherente(&self, log: Log) -> bool {
        &&& self.wf()
        &&& log.wf()
        &&& self.en_curso() matches Some(t) ==> log.registros().contains_key(t.id)
            && log.registros()[t.id].estado == estado_de_fase(self.fase())
    }

    /// A coordinator of node `id`, settling nothing.
    pub fn new(id: usize) -> (r: Self)
        ensures
            r.id_nodo() == id,
            r.en_curso() is None,
            r.wf(),
    {
        CoordinadorTransaccion {
            id,
            transaccion: None,
            fase: Fase::Prepare,
            mensajes: Vec::new(),
            esperado: MensajeTransaccion::new(CodigoTransaccion::READY, id, 0),
            error: None,
            decision: Ghost(None),
        }
    }

    /// Inserts `t` in state `e` into the log; the line, if one was
    /// appended, goes to `lineas`.
    fn persistir(
        log: &mut Log,
        t: &Transaccion,
        e: EstadoTransaccion,
        lineas: &mut Vec<String>,
    )
        requires
            old(log).wf(),
        ensures
            final(log).wf(),
            insercion(*old(log), con_estado(*t, e), *final(log), vista_linea(None)) || insercion(
                *old(log),
                con_estado(*t, e),
                *final(log),
                Some(texto_registro(con_estado(*t, e))),
            ),
            final(log).registros().contains_key(t.id),
            final(log).registros()[t.id].estado == e,
            old(log).registros().contains_key(t.id) && old(log).registros()[t.id].estado == e
                ==> *final(log) == *old(log),
            vista_lineas(*final(lineas)) == vista_lineas(*old(lineas)) + final(log).lineas().subrange(
                old(log).lineas().len() as int,
                final(log).lineas().len() as int,
            ),
            old(log).lineas().len() <= final(log).lineas().len(),
            final(log).lineas().subrange(0, old(log).lineas().len() as int) == old(log).lineas(),
            solo_estados(
                final(log).lineas().subrange(
                    old(log).lineas().len() as int,
                    final(log).lineas().len() as int,
                ),
                t.id,
                set![e],
            ),
    {
        let mut nueva = *t;
        nueva.estado = e;
        let r = log.insertar(&nueva);
        match r {
            Some(l) => {
                lineas.push(l);
                proof {
                    let a = old(log).lineas();
                    let b = log.lineas();
                    assert(b.subrange(a.len() as int, b.len() as int) =~= seq![texto_registro(nueva)]);
                    assert(vista_lineas(*lineas) =~= vista_lineas(*old(lineas)) + seq![
                        texto_registro(nueva),
                    ]);
                    assert(b.subrange(0, a.len() as int) =~= a);
                    lema_ida_y_vuelta_registro(nueva);
                    assert(set![e].contains(e));
                    assert(registro_con(texto_registro(nueva), t.id, set![e]));
                }
            },
            None => {
                proof {
                    let a = old(log).lineas();
                    assert(a.subrange(a.len() as int, a.len() as int) =~= Seq::<Seq<char>>::empty());
                    assert(vista_lineas(*lineas) =~= vista_lineas(*old(lineas)) + Seq::<
                        Seq<char>,
                    >::empty());
                    assert(a.subrange(0, a.len() as int) =~= a);
                }
            },
        }
    }

    /// The batch of phase `f` for `t`, and the reply it waits for.
    fn preparar_lote(&self, t: &Transaccion, f: Fase) -> (r: (
        Vec<MensajeTransaccion>,
        MensajeTransaccion,
    ))
        requires
            t.pago is Some,
        ensures
            r.0@ == lote_de(self.id, *t, f),
            r.1 == esperado_de(self.id, *t, f),
    {
        let mut v: Vec<MensajeTransaccion> = Vec::new();
        match f {
            Fase::Prepare => {
                let p = t.pago.unwrap();
                v.push(
                    MensajeTransaccion::new(
                        CodigoTransaccion::PREPARE { monto: p.get_monto_aerolinea() },
                        self.id,
                        t.id,
                    ),
                );
                v.push(
                    MensajeTransaccion::new(
                        CodigoTransaccion::PREPARE { monto: p.get_monto_hotel() },
                        self.id,
                        t.id,
                    ),
                );
                v.push(
                    MensajeTransaccion::new(
                        CodigoTransaccion::PREPARE { monto: p.get_monto_total() },
                        self.id,
                        t.id,
                    ),
                );
                let e = MensajeTransaccion::new(CodigoTransaccion::READY, self.id, t.id);
                assert(v@ =~= lote_de(self.id, *t, f));
                (v, e)
            },
            Fase::Commit => {
                let m = MensajeTransaccion::new(CodigoTransaccion::COMMIT, self.id, t.id);
                v.push(m);
                v.push(m);
                v.push(m);
                assert(v@ =~= lote_de(self.id, *t, f));
                (v, m)
            },
            Fase::Abort => {
                let m = MensajeTransaccion::new(CodigoTransaccion::ABORT, self.id, t.id);
                v.push(m);
                v.push(m);
                v.push(m);
                assert(v@ =~= lote_de(self.id, *t, f));
                (v, m)
            },
        }
    }

    /// Enters phase `f` for `t`: persists its state, then broadcasts.
    fn entrar_fase(
        &mut self,
        log: &mut Log,
        t: &Transaccion,
        f: Fase,
        error: Option<ErrorApp>,
    ) -> (r: Accion)
        requires
            old(log).wf(),
            t.pago is Some,
            (f == Fase::Abort) == error is Some,
        ensures
            final(log).wf(),
            final(self).en_curso() == Some(*t),
            final(self).fase() == f,
            final(self).id_nodo() == old(self).id_nodo(),
            final(self).coherente(*final(log)),
            final(self).error_pendiente() == error,
            envia(r, lote_de(old(self).id_nodo(), *t, f)),
            old(log).registros().contains_key(t.id) && old(log).registros()[t.id].estado
                == estado_de_fase(f) ==> *final(log) == *old(log),
            f == Fase::Prepare ==> final(self).decision() is None,
            f == Fase::Commit ==> final(self).decision() == Some(EstadoTransaccion::Commit),
            f == Fase::Abort ==> final(self).decision() == Some(EstadoTransaccion::Abort),
            lineas_de(r) == final(log).lineas().subrange(
                old(log).lineas().len() as int,
                final(log).lineas().len() as int,
            ),
            old(log).lineas().len() <= final(log).lineas().len(),
            final(log).lineas().subrange(0, old(log).lineas().len() as int) == old(log).lineas(),
            solo_estados(
                final(log).lineas().subrange(
                    old(log).lineas().len() as int,
                    final(log).lineas().len() as int,
                ),
                t.id,
                set![estado_de_fase(f)],
            ),
    {
        let mut lineas: Vec<String> = Vec::new();
        Self::persistir(log, t, estado_fase_exec(f), &mut lineas);
        proof {
            assert(vista_lineas(lineas) =~= Seq::<Seq<char>>::empty() + log.lineas().subrange(
                old(log).lineas().len() as int,
                log.lineas().len() as int,
            ));
        }
        let (mensajes, esperado) = self.preparar_lote(t, f);
        self.transaccion = Some(*t);
        self.fase = f;
        self.mensajes = mensajes;
        self.esperado = esperado;
        self.error = error;
        self.decision = Ghost(
            match f {
                Fase::Prepare => None,
                Fase::Commit => Some(EstadoTransaccion::Commit),
                Fase::Abort => Some(EstadoTransaccion::Abort),
            },
        );
        let r = Accion::Enviar { lineas, mensajes: self.mensajes.clone() };
        r
    }

    /// Ends the settlement of `t`: persists Finalize and reports `resultado`.
    fn terminar(
        &mut self,
        log: &mut Log,
        t: &Transaccion,
        resultado: Resultado<()>,
    ) -> (r: Accion)
        requires
            old(log).wf(),
        ensures
            final(log).wf(),
            final(self).en_curso() is None,
            final(self).id_nodo() == old(self).id_nodo(),
            final(self).wf(),
            r matches Accion::Terminar { resultado: res, .. } && res == resultado,
            final(log).registros().contains_key(t.id),
            final(log).registros()[t.id].estado == EstadoTransaccion::Finalize,
            lineas_de(r) == final(log).lineas().subrange(
                old(log).lineas().len() as int,
                final(log).lineas().len() as int,
            ),
            old(log).lineas().len() <= final(log).lineas().len(),
            final(log).lineas().subrange(0, old(log).lineas().len() as int) == old(log).lineas(),
            solo_estados(
                final(log).lineas().subrange(
                    old(log).lineas().len() as int,
                    final(log).lineas().len() as int,
                ),
                t.id,
                set![EstadoTransaccion::Finalize],
            ),
            forall|d: EstadoTransaccion|
                solo_estados(
                    #[trigger] lineas_de(r),
                    t.id,
                    set![d, EstadoTransaccion::Finalize],
                ),
    {
        let mut lineas: Vec<String> = Vec::new();
        Self::persistir(log, t, EstadoTransaccion::Finalize, &mut lineas);
        proof {
            assert(vista_lineas(lineas) =~= Seq::<Seq<char>>::empty() + log.lineas().subrange(
                old(log).lineas().len() as int,
                log.lineas().len() as int,
            ));
        }
        self.transaccion = None;
        self.error = None;
        let r = Accion::Terminar { lineas, resultado };
        proof {
            assert forall|d: EstadoTransaccion|
                solo_estados(
                    #[trigger] lineas_de(r),
                    t.id,
                    set![d, EstadoTransaccion::Finalize],
                ) by {
                lema_mas_estados(
                    lineas_de(r),
                    t.id,
                    set![EstadoTransaccion::Finalize],
                    set![d, EstadoTransaccion::Finalize],
                );
            }
        }
        r
    }

    /// The error that the submission reports once its abort is acknowledged.
    pub closed spec fn error_pendiente(&self) -> Option<ErrorApp> {
        self.error
    }

    /// Starts settling `transaccion` by what the log holds of its id: with
    /// nothing, or in Prepare, the whole protocol runs from PREPARE; in
    /// Commit the COMMIT broadcast is resumed; in Abort the ABORT broadcast
    /// is resumed and the submission then fails; in Finalize it is already
    /// settled.
    pub fn submit(&mut self, log: &mut Log, transaccion: &Transaccion) -> (r: Accion)
        requires
            old(log).wf(),
            transaccion.pago is Some,
        ensures
            final(self).id_nodo() == old(self).id_nodo(),
            final(log).lineas() == old(log).lineas() + lineas_de(r),
            efecto_submit(*old(self), *old(log), *transaccion, *final(self), *final(log), r),
    {
        let previo = log.obtener(&transaccion.id);
        let fase = match previo {
            None => Fase::Prepare,
            Some(t) => match t.estado {
                EstadoTransaccion::Prepare => Fase::Prepare,
                EstadoTransaccion::Commit => Fase::Commit,
                EstadoTransaccion::Abort => Fase::Abort,
                EstadoTransaccion::Finalize => {
                    self.transaccion = None;
                    self.error = None;
                    let r = Accion::Terminar { lineas: Vec::new(), resultado: Ok(()) };
                    proof {
                        assert(lineas_de(r) =~= Seq::<Seq<char>>::empty());
                        assert(log.lineas() =~= log.lineas() + lineas_de(r));
                    }
                    return r;
                },
            },
        };
        let error = match fase {
            Fase::Abort => Some(ErrorApp::Interno(ErrorInterno::new("Transaccion abortada"))),
            _ => None,
        };
        let r = self.entrar_fase(log, transaccion, fase, error);
        proof {
            let a = old(log).lineas();
            let b = log.lineas();
            assert(lineas_de(r) =~= b.subrange(a.len() as int, b.len() as int));
            assert(b =~= a + lineas_de(r));
        }
        r
    }

    /// Takes what came of the last broadcast. A timeout sends the batch
    /// again. When every stakeholder gave the expected reply, a PREPARE
    /// goes on to COMMIT, and a COMMIT or ABORT ends in Finalize. Other
    /// replies abort a PREPARE and repeat a COMMIT or ABORT, whose decision
    /// is already durable. A failed send aborts a PREPARE. During a COMMIT or
    /// ABORT it ends the submission and persists nothing, so the decision
    /// stays the last record of the transaction and a later submission
    /// resumes its broadcast: a COMMIT ends with the failure of the send, an
    /// ABORT with the error it was reporting (the failure of the PREPARE, or
    /// that the transaction was aborted).
    pub fn recibir(&mut self, log: &mut Log, evento: Evento) -> (r: Accion)
        requires
            old(self).coherente(*old(log)),
            old(self).en_curso() is Some,
        ensures
            final(self).id_nodo() == old(self).id_nodo(),
            final(log).lineas() == old(log).lineas() + lineas_de(r),
            transicion(*old(self), *old(log), evento, *final(self), *final(log), r),
    {
        let t = self.transaccion.unwrap();
        let ghost previo = *old(log);
        match evento {
            Evento::Timeout => {
                let r = Accion::Enviar { lineas: Vec::new(), mensajes: self.mensajes.clone() };
                proof {
                    assert(lineas_de(r) =~= Seq::<Seq<char>>::empty());
                    assert(log.lineas() =~= log.lineas() + lineas_de(r));
                }
                r
            },
            Evento::ErrorEnvio(e) => match self.fase {
                Fase::Prepare => {
                    let r = self.entrar_fase(log, &t, Fase::Abort, Some(e));
                    proof {
                        lema_suma(previo.lineas(), log.lineas(), lineas_de(r));
                    }
                    r
                },
                Fase::Commit => {
                    self.transaccion = None;
                    let r = Accion::Terminar { lineas: Vec::new(), resultado: Err(e) };
                    proof {
                        assert(lineas_de(r) =~= Seq::<Seq<char>>::empty());
                        assert(log.lineas() =~= log.lineas() + lineas_de(r));
                    }
                    r
                },
                Fase::Abort => {
                    let pendiente = self.error.take().unwrap();
                    self.transaccion = None;
                    let r = Accion::Terminar { lineas: Vec::new(), resultado: Err(pendiente) };
                    proof {
                        assert(lineas_de(r) =~= Seq::<Seq<char>>::empty());
                        assert(log.lineas() =~= log.lineas() + lineas_de(r));
                    }
                    r
                },
            },
            Evento::Respuestas(rs) => {
                let completas = self.todas_esperadas(&rs);
                if completas {
                    match self.fase {
                        Fase::Prepare => {
                            let r = self.entrar_fase(log, &t, Fase::Commit, None);
                            proof {
                                lema_suma(previo.lineas(), log.lineas(), lineas_de(r));
                            }
                            r
                        },
                        Fase::Commit => {
                            let r = self.terminar(log, &t, Ok(()));
                            proof {
                                lema_suma(previo.lineas(), log.lineas(), lineas_de(r));
                            }
                            r
                        },
                        Fase::Abort => {
                            let pendiente = self.error.take().unwrap();
                            let r = self.terminar(log, &t, Err(pendiente));
                            proof {
                                lema_suma(previo.lineas(), log.lineas(), lineas_de(r));
                            }
                            r
                        },
                    }
                } else {
                    match self.fase {
                        Fase::Prepare => {
                            let e = ErrorApp::Interno(ErrorInterno::new("Respuesta no esperada"));
                            let r = self.entrar_fase(log, &t, Fase::Abort, Some(e));
                            proof {
                                lema_suma(previo.lineas(), log.lineas(), lineas_de(r));
                            }
                            r
                        },
                        _ => {
                            let r = Accion::Enviar {
                                lineas: Vec::new(),
                                mensajes: self.mensajes.clone(),
                            };
                            proof {
                                assert(lineas_de(r) =~= Seq::<Seq<char>>::empty());
                                assert(log.lineas() =~= log.lineas() + lineas_de(r));
                            }
                            r
                        },
                    }
                }
            },
        }
    }

    /// Every reply matches the one expected.
    fn todas_esperadas(&self, rs: &Vec<MensajeTransaccion>) -> (r: bool)
        ensures
            r == todas_esperadas(rs@, self.esperado),
    {
        if rs.len() != WEBSERVICES {
            return false;
        }
        let mut i: usize = 0;
        while i < rs.len()
            invariant
                i <= rs.len(),
                forall|k: int| 0 <= k < i ==> #[trigger] mismo_mensaje(rs@[k], self.esperado),
            decreases rs.len() - i,
        {
            if rs[i] != self.esperado {
                return false;
            }
            i = i + 1;
        }
        true
    }
}

pub proof fn lema_suma(a: Seq<Seq<char>>, b: Seq<Seq<char>>, n: Seq<Seq<char>>)
    requires
        a.len() <= b.len(),
        b.subrange(0, a.len() as int) == a,
        n == b.subrange(a.len() as int, b.len() as int),
    ensures
        b == a + n,
{
    assert(b =~= a + n);
}

/// What `submit` of `t` does from `c0` and `l0`: by what the log holds of
/// the id of `t`, it ends at once, resumes a decided broadcast, or starts
/// the protocol from PREPARE.
pub open spec fn efecto_submit(
    c0: CoordinadorTransaccion,
    l0: Log,
    t: Transaccion,
    c1: CoordinadorTransaccion,
    l1: Log,
    r: Accion,
) -> bool {
    &&& c1.coherente(l1)
    &&& match estado_previo(l0, t.id) {
        Some(EstadoTransaccion::Finalize) => {
            &&& termina_bien(r)
            &&& l1 == l0
            &&& lineas_de(r).len() == 0
            &&& c1.en_curso() is None
        },
        Some(EstadoTransaccion::Commit) => {
            &&& envia(r, lote_de(c0.id_nodo(), t, Fase::Commit))
            &&& l1 == l0
            &&& lineas_de(r).len() == 0
            &&& c1.en_curso() == Some(t)
            &&& c1.fase() == Fase::Commit
            &&& c1.decision() == Some(EstadoTransaccion::Commit)
        },
        Some(EstadoTransaccion::Abort) => {
            &&& envia(r, lote_de(c0.id_nodo(), t, Fase::Abort))
            &&& l1 == l0
            &&& lineas_de(r).len() == 0
            &&& c1.en_curso() == Some(t)
            &&& c1.fase() == Fase::Abort
            &&& c1.decision() == Some(EstadoTransaccion::Abort)
            &&& pendiente_interno(c1.error_pendiente(), "Transaccion abortada"@)
        },
        _ => {
            &&& envia(r, lote_de(c0.id_nodo(), t, Fase::Prepare))
            &&& c1.en_curso() == Some(t)
            &&& c1.fase() == Fase::Prepare
            &&& c1.decision() is None
            &&& solo_estados(lineas_de(r), t.id, set![EstadoTransaccion::Prepare])
        },
    }
}

/// One step of the coordinator: from `c0` and `l0`, what came of the
/// broadcast (`evento`) leads to `c1`, `l1` and the action `r`.
pub open spec fn transicion(
    c0: CoordinadorTransaccion,
    l0: Log,
    evento: Evento,
    c1: CoordinadorTransaccion,
    l1: Log,
    r: Accion,
) -> bool {
    let t = c0.en_curso()->0;
    let id = c0.id_nodo();
    let f = c0.fase();
    let completas = evento matches Evento::Respuestas(rs) && todas_esperadas(
        rs@,
        esperado_de(id, t, f),
    );
    &&& c1.coherente(l1)
    &&& r is Enviar ==> c1.en_curso() == Some(t)
    &&& r is Terminar ==> c1.en_curso() is None
    &&& r is Terminar && evento !is ErrorEnvio ==> {
        &&& l1.registros().contains_key(t.id)
        &&& l1.registros()[t.id].estado == EstadoTransaccion::Finalize
        &&& c0.decision() is Some
        &&& solo_estados(lineas_de(r), t.id, set![EstadoTransaccion::Finalize])
    }
    &&& c0.decision() matches Some(d) ==> {
        &&& r is Enviar ==> c1.decision() == Some(d)
        &&& solo_estados(lineas_de(r), t.id, set![d, EstadoTransaccion::Finalize])
    }
    &&& evento is Timeout ==> {
        &&& envia(r, lote_de(id, t, f))
        &&& c1 == c0
        &&& l1 == l0
        &&& lineas_de(r).len() == 0
    }
    &&& f == Fase::Prepare && completas ==> {
        &&& envia(r, lote_de(id, t, Fase::Commit))
        &&& c1.fase() == Fase::Commit
        &&& solo_estados(lineas_de(r), t.id, set![EstadoTransaccion::Commit])
    }
    &&& f == Fase::Prepare && !completas && evento !is Timeout ==> {
        &&& envia(r, lote_de(id, t, Fase::Abort))
        &&& c1.fase() == Fase::Abort
        &&& solo_estados(lineas_de(r), t.id, set![EstadoTransaccion::Abort])
        &&& evento is Respuestas ==> pendiente_interno(
            c1.error_pendiente(),
            "Respuesta no esperada"@,
        )
        &&& evento is ErrorEnvio ==> c1.error_pendiente() == error_de(evento)
    }
    &&& f == Fase::Commit && completas ==> termina_bien(r)
    &&& f == Fase::Abort && completas ==> termina_con(r, c0.error_pendiente())
    &&& f != Fase::Prepare && !completas && evento is Respuestas ==> {
        &&& envia(r, lote_de(id, t, f))
        &&& c1 == c0
        &&& l1 == l0
        &&& lineas_de(r).len() == 0
    }
    &&& f == Fase::Commit && evento is ErrorEnvio ==> {
        &&& termina_con(r, error_de(evento))
        &&& l1 == l0
        &&& lineas_de(r).len() == 0
    }
    &&& f == Fase::Abort && evento is ErrorEnvio ==> {
        &&& termina_con(r, c0.error_pendiente())
        &&& l1 == l0
        &&& lineas_de(r).len() == 0
    }
}

/// The submission ends well.
pub open spec fn termina_bien(r: Accion) -> bool {
    r matches Accion::Terminar { resultado: Ok(_), .. }
}

/// The submission ends with the error `e`.
pub open spec fn termina_con(r: Accion, e: Option<ErrorApp>) -> bool {
    match (r, e) {
        (Accion::Terminar { resultado: Err(x), .. }, Some(e)) => x == e,
        _ => false,
    }
}

/// The error held is an internal one with text `texto`.
pub open spec fn pendiente_interno(e: Option<ErrorApp>, texto: Seq<char>) -> bool {
    e matches Some(ErrorApp::Interno(i)) && i@ == texto
}

/// The failure that a failed send reports.
pub open spec fn error_de(ev: Evento) -> Option<ErrorApp> {
    match ev {
        Evento::ErrorEnvio(e) => Some(e),
        _ => None,
    }
}

pub proof fn lema_mas_estados(
    lineas: Seq<Seq<char>>,
    id: usize,
    a: Set<EstadoTransaccion>,
    b: Set<EstadoTransaccion>,
)
    requires
        solo_estados(lineas, id, a),
        a.subset_of(b),
    ensures
        solo_estados(lineas, id, b),
{
    assert forall|i: int| 0 <= i < lineas.len() implies #[trigger] registro_con(
        lineas[i],
        id,
        b,
    ) by {
        assert(registro_con(lineas[i], id, a));
    }
}

/// The state of the id `id` in the log, if it holds one.
pub open spec fn estado_previo(log: Log, id: usize) -> Option<EstadoTransaccion> {
    if log.registros().contains_key(id) {
        Some(log.registros()[id].estado)
    } else {
        None
    }
}

/// Keeps a reply in the slot of its sender: READY, COMMIT and ABORT from a
/// known stakeholder are kept; anything else is passed over.
pub fn registrar_respuesta(
    respuestas: &mut Vec<Option<MensajeTransaccion>>,
    mensaje: MensajeTransaccion,
) -> (r: bool)
    ensures
        r == (!(mensaje.codigo is PREPARE) && mensaje.id_emisor < old(respuestas).len()),
        r ==> final(respuestas)@ == old(respuestas)@.update(
            mensaje.id_emisor as int,
            Some(mensaje),
        ),
        !r ==> final(respuestas)@ == old(respuestas)@,
{
    match mensaje.codigo {
        CodigoTransaccion::PREPARE { .. } => false,
        _ => {
            if mensaje.id_emisor < respuestas.len() {
                respuestas.set(mensaje.id_emisor, Some(mensaje));
                true
            } else {
                false
            }
        },
    }
}

/// The replies, in slot order, once every slot holds one.
pub fn respuestas_completas(respuestas: &Vec<Option<MensajeTransaccion>>) -> (r: Option<
    Vec<MensajeTransaccion>,
>)
    ensures
        r is Some <==> forall|i: int| 0 <= i < respuestas.len() ==> #[trigger] respuestas@[i] is Some,
        r matches Some(v) ==> v.len() == respuestas.len() && forall|i: int|
            0 <= i < v.len() ==> Some(#[trigger] v@[i]) == respuestas@[i],
{
    let mut v: Vec<MensajeTransaccion> = Vec::new();
    let mut i: usize = 0;
    while i < respuestas.len()
        invariant
            i <= respuestas.len(),
            v.len() == i,
            forall|k: int| 0 <= k < i ==> Some(#[trigger] v@[k]) == respuestas@[k],
        decreases respuestas.len() - i,
    {
        match respuestas[i] {
            Some(m) => v.push(m),
            None => {
                return None;
            },
        }
        i = i + 1;
    }
    assert forall|k: int| 0 <= k < respuestas.len() implies #[trigger] respuestas@[k] is Some by {
        assert(Some(v@[k]) == respuestas@[k]);
    }
    Some(v)
}

/// Slots for the replies of every stakeholder, all empty.
pub fn respuestas_vacias() -> (r: Vec<Option<MensajeTransaccion>>)
    ensures
        r.len() == WEBSERVICES,
        forall|i: int| 0 <= i < r.len() ==> #[trigger] r@[i] is None,
{
    let mut r: Vec<Option<MensajeTransaccion>> = Vec::new();
    r.push(None);
    r.push(None);
    r.push(None);
    r
}

pub fn estado_fase_exec(f: Fase) -> (r: EstadoTransaccion)
    ensures
        r == estado_de_fase(f),
{
    match f {
        Fase::Prepare => EstadoTransaccion::Prepare,
        Fase::Commit => EstadoTransaccion::Commit,
        Fase::Abort => EstadoTransaccion::Abort,
    }
}

/// A settlement of `t`: `submit` from `cs[0]` and `ls[0]`, then one step
/// of `recibir` for each event of `evs`, while the actions `rs` send.
pub open spec fn corrida(
    cs: Seq<CoordinadorTransaccion>,
    ls: Seq<Log>,
    t: Transaccion,
    evs: Seq<Evento>,
    rs: Seq<Accion>,
) -> bool {
    &&& rs.len() >= 1
    &&& cs.len() == rs.len() + 1
    &&& ls.len() == rs.len() + 1
    &&& evs.len() + 1 == rs.len()
    &&& efecto_submit(cs[0], ls[0], t, cs[1], ls[1], rs[0])
    &&& forall|i: int| 1 <= i < rs.len() ==> #[trigger] paso(cs, ls, evs, rs, i)
    &&& forall|i: int| 0 <= i < rs.len() - 1 ==> #[trigger] rs[i] is Enviar
}

/// The step `i` of a settlement.
pub open spec fn paso(
    cs: Seq<CoordinadorTransaccion>,
    ls: Seq<Log>,
    evs: Seq<Evento>,
    rs: Seq<Accion>,
    i: int,
) -> bool {
    transicion(cs[i], ls[i], evs[i - 1], cs[i + 1], ls[i + 1], rs[i])
}

/// Along a settlement that goes on past `submit`, the coordinator keeps
/// settling `t`.
proof fn lema_en_curso(
    cs: Seq<CoordinadorTransaccion>,
    ls: Seq<Log>,
    t: Transaccion,
    evs: Seq<Evento>,
    rs: Seq<Accion>,
    i: int,
)
    requires
        corrida(cs, ls, t, evs, rs),
        1 <= i < rs.len(),
    ensures
        cs[i].en_curso() == Some(t),
    decreases i,
{
    assert(rs[i - 1] is Enviar);
    if i > 1 {
        lema_en_curso(cs, ls, t, evs, rs, i - 1);
        assert(paso(cs, ls, evs, rs, i - 1));
    }
}

/// Two-phase commit safety: a settlement that ends on the replies of its
/// last broadcast (not on a failed send) leaves its transaction in Finalize
/// in the log, never in Prepare; unless it was settled already, the
/// Finalize comes after a decision, Commit or Abort, and the last step
/// appends the Finalize record alone.
pub proof fn lema_termina_en_finalize(
    cs: Seq<CoordinadorTransaccion>,
    ls: Seq<Log>,
    t: Transaccion,
    evs: Seq<Evento>,
    rs: Seq<Accion>,
)
    requires
        corrida(cs, ls, t, evs, rs),
        rs.last() is Terminar,
        rs.len() > 1 ==> !(evs.last() is ErrorEnvio),
    ensures
        ls.last().registros().contains_key(t.id),
        ls.last().registros()[t.id].estado == EstadoTransaccion::Finalize,
        rs.len() > 1 ==> {
            &&& cs[rs.len() - 1].decision() matches Some(d) && (d == EstadoTransaccion::Commit
                || d == EstadoTransaccion::Abort)
            &&& solo_estados(lineas_de(rs.last()), t.id, set![EstadoTransaccion::Finalize])
        },
{
    let n = rs.len() - 1;
    if n == 0 {
        assert(estado_previo(ls[0], t.id) == Some(EstadoTransaccion::Finalize));
    } else {
        lema_en_curso(cs, ls, t, evs, rs, n);
        assert(paso(cs, ls, evs, rs, n));
        lema_decision(cs, ls, t, evs, rs, n);
    }
}

/// Along a settlement, the coordinator's decision, once taken, is Commit or
/// Abort; it is taken by the step that ends.
proof fn lema_decision(
    cs: Seq<CoordinadorTransaccion>,
    ls: Seq<Log>,
    t: Transaccion,
    evs: Seq<Evento>,
    rs: Seq<Accion>,
    i: int,
)
    requires
        corrida(cs, ls, t, evs, rs),
        1 <= i < rs.len(),
    ensures
        cs[i].decision() is Some ==> cs[i].decision() == Some(EstadoTransaccion::Commit)
            || cs[i].decision() == Some(EstadoTransaccion::Abort),
{
    lema_en_curso(cs, ls, t, evs, rs, i);
    if i == 1 {
        assert(efecto_submit(cs[0], ls[0], t, cs[1], ls[1], rs[0]));
    } else {
        assert(paso(cs, ls, evs, rs, i - 1));
    }
    assert(cs[i].wf());
}

/// At most one decision: when the log already holds the decision `d`
/// (Commit or Abort) for a transaction, settling it again appends, at every
/// step, records of that transaction in `d` or in Finalize only; the other
/// decision is never persisted.
pub proof fn lema_una_decision(
    cs: Seq<CoordinadorTransaccion>,
    ls: Seq<Log>,
    t: Transaccion,
    evs: Seq<Evento>,
    rs: Seq<Accion>,
    d: EstadoTransaccion,
)
    requires
        corrida(cs, ls, t, evs, rs),
        d == EstadoTransaccion::Commit || d == EstadoTransaccion::Abort,
        estado_previo(ls[0], t.id) == Some(d),
    ensures
        forall|i: int|
            0 <= i < rs.len() ==> solo_estados(
                #[trigger] lineas_de(rs[i]),
                t.id,
                set![d, EstadoTransaccion::Finalize],
            ),
{
    assert forall|i: int| 0 <= i < rs.len() implies solo_estados(
        #[trigger] lineas_de(rs[i]),
        t.id,
        set![d, EstadoTransaccion::Finalize],
    ) by {
        if i == 0 {
            assert(lineas_de(rs[0]).len() == 0);
        } else {
            lema_decidida(cs, ls, t, evs, rs, d, i);
            assert(paso(cs, ls, evs, rs, i));
        }
    }
}

proof fn lema_decidida(
    cs: Seq<CoordinadorTransaccion>,
    ls: Seq<Log>,
    t: Transaccion,
    evs: Seq<Evento>,
    rs: Seq<Accion>,
    d: EstadoTransaccion,
    i: int,
)
    requires
        corrida(cs, ls, t, evs, rs),
        d == EstadoTransaccion::Commit || d == EstadoTransaccion::Abort,
        estado_previo(ls[0], t.id) == Some(d),
        1 <= i < rs.len(),
    ensures
        cs[i].decision() == Some(d),
        cs[i].en_curso() == Some(t),
    decreases i,
{
    lema_en_curso(cs, ls, t, evs, rs, i);
    if i > 1 {
        lema_decidida(cs, ls, t, evs, rs, d, i - 1);
        assert(rs[i - 1] is Enviar);
        assert(paso(cs, ls, evs, rs, i - 1));
    }
}

} // verus!
