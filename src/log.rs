//! The write-ahead log of transactions: an index from transaction id to its
//! latest record, kept together with the lines of the log file, from which
//! it can always be rebuilt.
use vstd::prelude::*;
use std::collections::HashMap;
use crate::pago::Pago;
use crate::protocolo_transaccion::es_usize;
use crate::texto::{
    agregar_caracter, campos, caracteres, decimal, dividir, es_palabra, escribir_decimal,
    lema_campos_concat, lema_campos_uno, lema_decimal, lema_numero_sin,
    parsear_usize, sin, valor,
};

verus! {

broadcast use vstd::std_specs::hash::group_hash_axioms;

/// The state of a transaction.
/// Prepare: resources were asked of every stakeholder; the outcome is open.
/// Commit: the commit was decided and is being propagated.
/// Abort: the abort was decided and is being propagated.
/// Finalize: every stakeholder acknowledged the decision.
#[derive(Clone, Copy, PartialEq, Eq, Structural, Debug)]
pub enum EstadoTransaccion {
    Prepare,
    Commit,
    Abort,
    Finalize,
}

/// One attempt to settle the payment `id_pago`; `id_pago_prox` is the
/// payment to take after it.
#[derive(Clone, Copy, Debug)]
pub struct Transaccion {
    pub id: usize,
    pub id_pago: usize,
    pub id_pago_prox: usize,
    pub estado: EstadoTransaccion,
    pub pago: Option<Pago>,
}

impl Transaccion {
    /// A transaction without its payment.
    pub fn new(id: usize, id_pago: usize, id_pago_prox: usize, estado: EstadoTransaccion) -> (r:
        Self)
        ensures
            r == (Transaccion { id, id_pago, id_pago_prox, estado, pago: None }),
    {
        Self { id, id_pago, id_pago_prox, estado, pago: None }
    }

    /// The payment of the transaction.
    pub fn get_pago(&self) -> (r: Option<Pago>)
        ensures
            r == self.pago,
    {
        self.pago
    }

    /// Moves the transaction to Prepare.
    pub fn prepare(&mut self) -> (r: &Self)
        ensures
            *final(self) == con_estado(*old(self), EstadoTransaccion::Prepare),
            *r == *final(self),
    {
        self.estado = EstadoTransaccion::Prepare;
        self
    }

    /// Moves the transaction to Commit.
    pub fn commit(&mut self) -> (r: &Self)
        ensures
            *final(self) == con_estado(*old(self), EstadoTransaccion::Commit),
            *r == *final(self),
    {
        self.estado = EstadoTransaccion::Commit;
        self
    }

    /// Moves the transaction to Abort.
    pub fn abort(&mut self) -> (r: &Self)
        ensures
            *final(self) == con_estado(*old(self), EstadoTransaccion::Abort),
            *r == *final(self),
    {
        self.estado = EstadoTransaccion::Abort;
        self
    }

    /// Moves the transaction to Finalize.
    pub fn finalize(&mut self) -> (r: &Self)
        ensures
            *final(self) == con_estado(*old(self), EstadoTransaccion::Finalize),
            *r == *final(self),
    {
        self.estado = EstadoTransaccion::Finalize;
        self
    }
}

pub open spec fn con_estado(t: Transaccion, e: EstadoTransaccion) -> Transaccion {
    Transaccion { estado: e, ..t }
}

/// What the log file keeps of a transaction: everything but its payment.
pub open spec fn registro(t: Transaccion) -> Transaccion {
    Transaccion { pago: None, ..t }
}

pub open spec fn palabra_estado(e: EstadoTransaccion) -> Seq<char> {
    match e {
        EstadoTransaccion::Prepare => "PREPARE"@,
        EstadoTransaccion::Commit => "COMMIT"@,
        EstadoTransaccion::Abort => "ABORT"@,
        EstadoTransaccion::Finalize => "FINALIZE"@,
    }
}

pub open spec fn estado_de(t: Seq<char>) -> Option<EstadoTransaccion> {
    if t == "PREPARE"@ {
        Some(EstadoTransaccion::Prepare)
    } else if t == "COMMIT"@ {
        Some(EstadoTransaccion::Commit)
    } else if t == "ABORT"@ {
        Some(EstadoTransaccion::Abort)
    } else if t == "FINALIZE"@ {
        Some(EstadoTransaccion::Finalize)
    } else {
        None
    }
}

/// The log line of a transaction: `<id>,<payment_id>,<next_payment_id>,<STATE>`.
pub open spec fn texto_registro(t: Transaccion) -> Seq<char> {
    decimal(t.id as nat) + seq![','] + decimal(t.id_pago as nat) + seq![','] + decimal(
        t.id_pago_prox as nat,
    ) + seq![','] + palabra_estado(t.estado)
}

/// The record that the line `s` holds, if it follows the log grammar.
pub open spec fn linea_registro(s: Seq<char>) -> Option<Transaccion> {
    let f = campos(s, ',');
    if f.len() == 4 && es_usize(f[0]) && es_usize(f[1]) && es_usize(f[2]) && estado_de(
        f[3],
    ) is Some {
        Some(
            Transaccion {
                id: valor(f[0]) as usize,
                id_pago: valor(f[1]) as usize,
                id_pago_prox: valor(f[2]) as usize,
                estado: estado_de(f[3])->0,
                pago: None,
            },
        )
    } else {
        None
    }
}

/// The index that replaying `lineas` builds: for each id, its record on the
/// latest line that holds one. Lines outside the grammar are passed over.
pub open spec fn indice(lineas: Seq<Seq<char>>) -> Map<usize, Transaccion>
    decreases lineas.len(),
{
    if lineas.len() == 0 {
        Map::empty()
    } else {
        let m = indice(lineas.drop_last());
        match linea_registro(lineas.last()) {
            Some(t) => m.insert(t.id, t),
            None => m,
        }
    }
}

/// The highest transaction id among the records of `lineas`.
pub open spec fn mayor_id(lineas: Seq<Seq<char>>) -> Option<usize>
    decreases lineas.len(),
{
    if lineas.len() == 0 {
        None
    } else {
        let p = mayor_id(lineas.drop_last());
        match linea_registro(lineas.last()) {
            Some(t) => match p {
                Some(k) => Some(if k >= t.id {
                    k
                } else {
                    t.id
                }),
                None => Some(t.id),
            },
            None => p,
        }
    }
}

/// The last transaction after replaying `lineas`: the record of the highest id.
pub open spec fn ultima_de(lineas: Seq<Seq<char>>) -> Option<Transaccion> {
    match mayor_id(lineas) {
        Some(k) => Some(indice(lineas)[k]),
        None => None,
    }
}

pub open spec fn registro_opcional(t: Option<Transaccion>) -> Option<Transaccion> {
    match t {
        Some(t) => Some(registro(t)),
        None => None,
    }
}

pub open spec fn vista_linea(r: Option<String>) -> Option<Seq<char>> {
    match r {
        Some(s) => Some(s@),
        None => None,
    }
}

/// Decoding the line of a transaction gives back its record.
pub proof fn lema_ida_y_vuelta_registro(t: Transaccion)
    ensures
        linea_registro(texto_registro(t)) == Some(registro(t)),
{
    reveal_strlit("PREPARE");
    reveal_strlit("COMMIT");
    reveal_strlit("ABORT");
    reveal_strlit("FINALIZE");
    let d1 = decimal(t.id as nat);
    let d2 = decimal(t.id_pago as nat);
    let d3 = decimal(t.id_pago_prox as nat);
    let w = palabra_estado(t.estado);
    lema_decimal(t.id as nat);
    lema_decimal(t.id_pago as nat);
    lema_decimal(t.id_pago_prox as nat);
    lema_numero_sin(d1, ',');
    lema_numero_sin(d2, ',');
    lema_numero_sin(d3, ',');
    assert(sin(w, ','));
    lema_campos_uno(d1, ',');
    lema_campos_uno(d2, ',');
    lema_campos_uno(d3, ',');
    lema_campos_uno(w, ',');
    let x1 = d1 + seq![','] + d2;
    let x2 = x1 + seq![','] + d3;
    lema_campos_concat(d1, ',', d2);
    lema_campos_concat(x1, ',', d3);
    lema_campos_concat(x2, ',', w);
    assert(texto_registro(t) == x2 + seq![','] + w);
    assert(campos(texto_registro(t), ',') =~= seq![d1, d2, d3, w]);
}

pub proof fn lema_indice(lineas: Seq<Seq<char>>)
    ensures
        forall|k: usize| #[trigger]
            indice(lineas).contains_key(k) ==> indice(lineas)[k].id == k && indice(
                lineas,
            )[k].pago is None,
    decreases lineas.len(),
{
    if lineas.len() > 0 {
        lema_indice(lineas.drop_last());
    }
}

pub proof fn lema_mayor_id(lineas: Seq<Seq<char>>)
    ensures
        mayor_id(lineas) is None <==> indice(lineas).dom() =~= Set::<usize>::empty(),
        mayor_id(lineas) matches Some(k) ==> indice(lineas).contains_key(k) && forall|j: usize|
            #[trigger] indice(lineas).contains_key(j) ==> j <= k,
    decreases lineas.len(),
{
    if lineas.len() > 0 {
        lema_mayor_id(lineas.drop_last());
        if mayor_id(lineas) is None {
            assert(indice(lineas).dom() =~= Set::<usize>::empty());
        }
        if indice(lineas).dom() =~= Set::<usize>::empty() {
            if linea_registro(lineas.last()) is Some {
                assert(indice(lineas).contains_key(linea_registro(lineas.last())->0.id));
            }
        }
    }
}

/// Reads the record of a log line; a line outside the grammar gives none.
pub fn parsear_transaccion(linea: &String) -> (r: Option<Transaccion>)
    ensures
        r == linea_registro(linea@),
{
    proof {
        reveal_strlit("PREPARE");
        reveal_strlit("COMMIT");
        reveal_strlit("ABORT");
        reveal_strlit("FINALIZE");
    }
    let texto = caracteres(linea.as_str());
    let f = dividir(&texto, ',');
    if f.len() != 4 {
        return None;
    }
    let estado = if es_palabra(&f[3], "PREPARE") {
        EstadoTransaccion::Prepare
    } else if es_palabra(&f[3], "COMMIT") {
        EstadoTransaccion::Commit
    } else if es_palabra(&f[3], "ABORT") {
        EstadoTransaccion::Abort
    } else if es_palabra(&f[3], "FINALIZE") {
        EstadoTransaccion::Finalize
    } else {
        return None;
    };
    match (parsear_usize(&f[0]), parsear_usize(&f[1]), parsear_usize(&f[2])) {
        (Some(id), Some(id_pago), Some(id_pago_prox)) => Some(
            Transaccion::new(id, id_pago, id_pago_prox, estado),
        ),
        _ => None,
    }
}

/// The log line of a transaction.
pub fn formatear_transaccion(t: &Transaccion) -> (r: String)
    ensures
        r@ == texto_registro(*t),
{
    let mut r = String::new();
    escribir_decimal(&mut r, t.id as u64);
    agregar_caracter(&mut r, ',');
    escribir_decimal(&mut r, t.id_pago as u64);
    agregar_caracter(&mut r, ',');
    escribir_decimal(&mut r, t.id_pago_prox as u64);
    agregar_caracter(&mut r, ',');
    let w = match t.estado {
        EstadoTransaccion::Prepare => "PREPARE",
        EstadoTransaccion::Commit => "COMMIT",
        EstadoTransaccion::Abort => "ABORT",
        EstadoTransaccion::Finalize => "FINALIZE",
    };
    proof {
        reveal_strlit("PREPARE");
        reveal_strlit("COMMIT");
        reveal_strlit("ABORT");
        reveal_strlit("FINALIZE");
    }
    r.append(w);
    assert(r@ =~= texto_registro(*t));
    r
}

/// The write-ahead log. It holds, for each transaction id, the transaction
/// as last inserted, the last transaction, and the highest id it holds;
/// beside them, as a model, the lines of its file.
pub struct Log {
    log: HashMap<usize, Transaccion>,
    ultima_trans: Option<Transaccion>,
    mayor: Option<usize>,
    archivo: Ghost<Seq<Seq<char>>>,
}

/// `despues` is `antes` after inserting `t`, and `linea` what was appended
/// to the file. A transaction whose id already holds the same state changes
/// nothing and appends nothing.
pub open spec fn insercion(
    antes: Log,
    t: Transaccion,
    despues: Log,
    linea: Option<Seq<char>>,
) -> bool {
    if antes.registros().contains_key(t.id) && antes.registros()[t.id].estado == t.estado {
        despues == antes && linea is None
    } else {
        &&& despues.registros() == antes.registros().insert(t.id, t)
        &&& despues.ultima() == Some(t)
        &&& despues.mayor() == mayor_tras(antes.mayor(), t.id)
        &&& despues.lineas() == antes.lineas().push(texto_registro(t))
        &&& linea == Some(texto_registro(t))
    }
}

/// The highest id after inserting the id `id`.
pub open spec fn mayor_tras(m: Option<usize>, id: usize) -> Option<usize> {
    match m {
        Some(m) => if id < m {
            Some(m)
        } else {
            Some(id)
        },
        None => Some(id),
    }
}

/// `l` is a log just opened on its file.
pub open spec fn recien_abierto(l: Log) -> bool {
    &&& l.registros() == indice(l.lineas())
    &&& l.ultima() == ultima_de(l.lineas())
    &&& l.mayor() == mayor_id(l.lineas())
}

/// The id that the next transaction gets: the one after the highest id held.
pub open spec fn siguiente_id(l: Log) -> int {
    match l.mayor() {
        Some(k) => k + 1,
        None => 1,
    }
}

impl Log {
    /// The transaction of each id, as last inserted.
    pub closed spec fn registros(&self) -> Map<usize, Transaccion> {
        self.log@
    }

    /// The last transaction: the last one inserted, or, in a log just
    /// opened, the record of the highest id.
    pub closed spec fn ultima(&self) -> Option<Transaccion> {
        self.ultima_trans
    }

    /// The highest transaction id held.
    pub closed spec fn mayor(&self) -> Option<usize> {
        self.mayor
    }

    /// The lines of the log file.
    pub closed spec fn lineas(&self) -> Seq<Seq<char>> {
        self.archivo@
    }

    /// The index and the last transaction agree with the file.
    pub open spec fn wf(&self) -> bool {
        &&& forall|k: usize| #[trigger]
            self.registros().contains_key(k) ==> self.registros()[k].id == k
        &&& forall|k: usize| #[trigger]
            indice(self.lineas()).contains_key(k) <==> self.registros().contains_key(k)
        &&& forall|k: usize| #[trigger]
            self.registros().contains_key(k) ==> indice(self.lineas())[k] == registro(
                self.registros()[k],
            )
        &&& self.ultima() matches Some(t) ==> self.registros().contains_key(t.id)
            && self.registros()[t.id] == t
        &&& self.ultima() is None ==> self.registros().dom() =~= Set::<usize>::empty()
        &&& self.mayor() is None ==> self.registros().dom() =~= Set::<usize>::empty()
        &&& self.mayor() matches Some(m) ==> self.registros().contains_key(m)
            && forall|k: usize| #[trigger] self.registros().contains_key(k) ==> k <= m
    }

    /// Opens a log on the lines of its file: every line that follows the
    /// grammar is replayed, the others are passed over; the last transaction
    /// is the record of the highest id.
    pub fn new(lineas: &Vec<String>) -> (r: Log)
        ensures
            r.wf(),
            recien_abierto(r),
            r.lineas() == lineas@.map_values(|l: String| l@),
    {
        let ghost todas = lineas@.map_values(|l: String| l@);
        let mut log: HashMap<usize, Transaccion> = HashMap::new();
        let mut mayor: Option<usize> = None;
        let mut i: usize = 0;
        while i < lineas.len()
            invariant
                i <= lineas.len(),
                todas == lineas@.map_values(|l: String| l@),
                log@ == indice(todas.subrange(0, i as int)),
                mayor == mayor_id(todas.subrange(0, i as int)),
            decreases lineas.len() - i,
        {
            proof {
                assert(todas.subrange(0, i + 1).drop_last() =~= todas.subrange(0, i as int));
                assert(todas.subrange(0, i + 1).last() == lineas@[i as int]@);
            }
            match parsear_transaccion(&lineas[i]) {
                Some(t) => {
                    log.insert(t.id, t);
                    mayor = match mayor {
                        Some(k) => Some(
                            if k >= t.id {
                                k
                            } else {
                                t.id
                            },
                        ),
                        None => Some(t.id),
                    };
                },
                None => {},
            }
            i = i + 1;
        }
        proof {
            assert(todas.subrange(0, lineas.len() as int) =~= todas);
            lema_indice(todas);
            lema_mayor_id(todas);
        }
        let ultima_trans = match mayor {
            Some(k) => match log.get(&k) {
                Some(t) => Some(*t),
                None => None,
            },
            None => None,
        };
        let r = Log { log, ultima_trans, mayor, archivo: Ghost(todas) };
        proof {
            assert(r.registros() == indice(r.lineas()));
        }
        r
    }

    /// Gives a new transaction, in Prepare and without payment, under the id
    /// that follows the highest id held. It is not inserted.
    pub fn nueva_transaccion(&self, id_pago: usize, id_prox_pago: usize) -> (r: Transaccion)
        requires
            self.wf(),
            siguiente_id(*self) <= usize::MAX,
        ensures
            forall|k: usize| #[trigger] self.registros().contains_key(k) ==> k < r.id,
            r == (Transaccion {
                id: siguiente_id(*self) as usize,
                id_pago,
                id_pago_prox: id_prox_pago,
                estado: EstadoTransaccion::Prepare,
                pago: None,
            }),
    {
        let id = match self.mayor {
            Some(k) => k,
            None => 0,
        };
        Transaccion::new(id + 1, id_pago, id_prox_pago, EstadoTransaccion::Prepare)
    }

    /// The transaction of id `id`, as last inserted.
    pub fn obtener(&self, id: &usize) -> (r: Option<Transaccion>)
        ensures
            r == (if self.registros().contains_key(*id) {
                Some(self.registros()[*id])
            } else {
                None
            }),
    {
        match self.log.get(id) {
            Some(t) => Some(*t),
            None => None,
        }
    }

    /// Inserts a transaction, unless its id already holds the same state.
    /// Gives the line to append to the log file, which must be written before
    /// anything is sent about this state.
    pub fn insertar(&mut self, transaccion: &Transaccion) -> (r: Option<String>)
        requires
            old(self).wf(),
        ensures
            final(self).wf(),
            insercion(*old(self), *transaccion, *final(self), vista_linea(r)),
    {
        match self.log.get(&transaccion.id) {
            Some(t) => {
                if t.estado == transaccion.estado {
                    return None;
                }
            },
            None => {},
        }
        let salida = formatear_transaccion(transaccion);
        self.log.insert(transaccion.id, *transaccion);
        self.ultima_trans = Some(*transaccion);
        self.mayor = match self.mayor {
            Some(m) => if transaccion.id < m {
                Some(m)
            } else {
                Some(transaccion.id)
            },
            None => Some(transaccion.id),
        };
        let ghost antes = self.archivo@;
        self.archivo = Ghost(antes.push(salida@));
        proof {
            let l = self.archivo@;
            assert(l.drop_last() =~= antes);
            lema_ida_y_vuelta_registro(*transaccion);
            assert(indice(l) == indice(antes).insert(transaccion.id, registro(*transaccion)));
        }
        Some(salida)
    }

    /// The highest transaction id held.
    pub fn id_mayor(&self) -> (r: Option<usize>)
        ensures
            r == self.mayor(),
    {
        self.mayor
    }

    /// The last transaction.
    pub fn ultima_transaccion(&self) -> (r: Option<Transaccion>)
        ensures
            r == self.ultima(),
    {
        self.ultima_trans
    }
}

/// Inserting the same transaction twice is inserting it once: the second
/// insertion appends no line and leaves the log, its last transaction
/// included, as the first left it.
pub proof fn lema_insercion_idempotente(
    l0: Log,
    l1: Log,
    l2: Log,
    t: Transaccion,
    r1: Option<Seq<char>>,
    r2: Option<Seq<char>>,
)
    requires
        insercion(l0, t, l1, r1),
        insercion(l1, t, l2, r2),
    ensures
        r2 is None,
        l2 == l1,
{
}

/// The last transaction has the highest id of the log.
pub open spec fn ultima_es_mayor(l: Log) -> bool {
    l.ultima() matches Some(t) ==> forall|k: usize| #[trigger]
        l.registros().contains_key(k) ==> k <= t.id
}

/// Reopening the file of a log after any insertions recovers, for every id,
/// the record of its latest state, and the highest id; it recovers the last
/// transaction when that one holds the highest id, as it does when ids only
/// grow.
pub proof fn lema_recuperacion(antes: Log, despues: Log)
    requires
        antes.wf(),
        recien_abierto(despues),
        despues.lineas() == antes.lineas(),
    ensures
        despues.registros().dom() == antes.registros().dom(),
        forall|k: usize| #[trigger]
            antes.registros().contains_key(k) ==> despues.registros()[k] == registro(
                antes.registros()[k],
            ),
        despues.mayor() == antes.mayor(),
        ultima_es_mayor(antes) ==> despues.ultima() == registro_opcional(antes.ultima()),
{
    let l = antes.lineas();
    lema_mayor_id(l);
    assert(despues.registros().dom() =~= antes.registros().dom());
    match antes.mayor() {
        Some(m) => {
            assert(indice(l).contains_key(m));
            let k = mayor_id(l)->0;
            assert(antes.registros().contains_key(k));
            assert(k <= m && m <= k);
        },
        None => {
            if mayor_id(l) is Some {
                assert(indice(l).contains_key(mayor_id(l)->0));
            }
        },
    }
    if ultima_es_mayor(antes) {
        match antes.ultima() {
            Some(t) => {
                assert(indice(l).contains_key(t.id));
                let k = mayor_id(l)->0;
                assert(k <= t.id);
                assert(antes.registros().contains_key(k));
                assert(k >= t.id);
            },
            None => {},
        }
    }
}

/// Recovery of the last insertion: when the last insertion that appended a
/// line was of `t`, and no id of the log was higher than that of `t` (as
/// for every transaction that `nueva_transaccion` numbers), reopening the
/// file gives `t` back, without its payment, as the last transaction.
pub proof fn lema_recuperacion_ultima(
    l0: Log,
    t: Transaccion,
    l1: Log,
    linea: Option<Seq<char>>,
    despues: Log,
)
    requires
        l0.wf(),
        l1.wf(),
        insercion(l0, t, l1, linea),
        linea is Some,
        forall|k: usize| #[trigger] l0.registros().contains_key(k) ==> k <= t.id,
        recien_abierto(despues),
        despues.lineas() == l1.lineas(),
    ensures
        despues.ultima() == Some(registro(t)),
{
    assert(ultima_es_mayor(l1));
    lema_recuperacion(l1, despues);
}

} // verus!
