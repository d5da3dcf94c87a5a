//! The local view of the bully leader election: who this node believes is
//! the leader, and what it sends on each event. Waiting, timers and sockets
//! belong to whoever runs it; every decision is here.
use vstd::prelude::*;
use crate::protocolo_lider::{CodigoLider, MensajeLider};

verus! {

/// Number of nodes of the cluster, with ids `0..TEAM_MEMBERS`.
pub const TEAM_MEMBERS: usize = 5;

/// The leader that a node believes in before it hears of any.
pub const ID_LIDER_DEFAULT: usize = 0;

/// A message to send: its code and the node it goes to.
#[derive(Clone, Copy, PartialEq, Eq, Structural, Debug)]
pub struct Envio {
    pub codigo: CodigoLider,
    pub destino: usize,
}

/// What handling a message asks for: messages to send, and whether a new
/// election must be started.
pub struct Reaccion {
    pub envios: Vec<Envio>,
    pub nueva_eleccion: bool,
}

/// `codigo` to every node from `desde` on, but `excepto`, by increasing id.
pub open spec fn envios_desde(codigo: CodigoLider, desde: int, excepto: int) -> Seq<Envio>
    decreases TEAM_MEMBERS - desde,
{
    if desde >= TEAM_MEMBERS || desde < 0 {
        Seq::empty()
    } else {
        let resto = envios_desde(codigo, desde + 1, excepto);
        if desde == excepto {
            resto
        } else {
            seq![Envio { codigo, destino: desde as usize }] + resto
        }
    }
}

/// `codigo` to every other node.
pub open spec fn a_los_demas(codigo: CodigoLider, id: usize) -> Seq<Envio> {
    envios_desde(codigo, 0, id as int)
}

/// `codigo` to every node of higher id.
pub open spec fn a_los_mayores(codigo: CodigoLider, id: usize) -> Seq<Envio> {
    envios_desde(codigo, id + 1, id as int)
}

/// Builds `envios_desde(codigo, desde, excepto)`.
fn difundir(codigo: CodigoLider, desde: usize, excepto: usize) -> (r: Vec<Envio>)
    ensures
        r@ == envios_desde(codigo, desde as int, excepto as int),
{
    let mut v: Vec<Envio> = Vec::new();
    let mut i: usize = desde;
    if i > TEAM_MEMBERS {
        return v;
    }
    while i < TEAM_MEMBERS
        invariant
            desde <= i <= TEAM_MEMBERS,
            v@ + envios_desde(codigo, i as int, excepto as int) == envios_desde(
                codigo,
                desde as int,
                excepto as int,
            ),
        decreases TEAM_MEMBERS - i,
    {
        let ghost antes = v@;
        if i != excepto {
            v.push(Envio { codigo, destino: i });
            assert(v@ + envios_desde(codigo, i + 1, excepto as int) =~= antes + envios_desde(
                codigo,
                i as int,
                excepto as int,
            ));
        }
        i = i + 1;
    }
    assert(v@ =~= v@ + envios_desde(codigo, i as int, excepto as int));
    v
}

/// The election state of node `id`: the leader it believes in (none while
/// an election runs), whether an OK came during its own election, and
/// whether it is stopping.
pub struct EleccionLider {
    id: usize,
    id_lider: Option<usize>,
    obtuve_ok: bool,
    stop: bool,
}

impl EleccionLider {
    pub closed spec fn id(&self) -> usize {
        self.id
    }

    /// The leader this node believes in; none while an election runs.
    pub closed spec fn lider(&self) -> Option<usize> {
        self.id_lider
    }

    pub closed spec fn ok_recibido(&self) -> bool {
        self.obtuve_ok
    }

    pub closed spec fn detenido(&self) -> bool {
        self.stop
    }

    /// The node believes itself the leader.
    pub open spec fn se_cree_lider(&self) -> bool {
        self.lider() == Some(self.id())
    }

    /// Node `id`, believing in the default leader.
    pub fn new(id: usize) -> (r: Self)
        ensures
            r.id() == id,
            r.lider() == Some(ID_LIDER_DEFAULT),
            !r.ok_recibido(),
            !r.detenido(),
    {
        EleccionLider { id, id_lider: Some(ID_LIDER_DEFAULT), obtuve_ok: false, stop: false }
    }

    /// What a starting node sends: VERIFICAR to every other node.
    pub fn inicializar(&self) -> (r: Vec<Envio>)
        ensures
            r@ == a_los_demas(CodigoLider::VERIFICAR, self.id()),
    {
        difundir(CodigoLider::VERIFICAR, 0, self.id)
    }

    /// The node believes itself the leader.
    pub fn soy_lider(&self) -> (r: bool)
        ensures
            r == self.se_cree_lider(),
    {
        match self.id_lider {
            Some(l) => l == self.id,
            None => false,
        }
    }

    /// The leader the node believes in, if no election is running.
    pub fn get_id_lider(&self) -> (r: Option<usize>)
        ensures
            r == self.lider(),
    {
        self.id_lider
    }

    /// The node is stopping.
    pub fn detenida(&self) -> (r: bool)
        ensures
            r == self.detenido(),
    {
        self.stop
    }

    /// Whether an OK came during the node's own election.
    pub fn obtuvo_ok(&self) -> (r: bool)
        ensures
            r == self.ok_recibido(),
    {
        self.obtuve_ok
    }

    /// What a leaving node sends so that the others elect again: ELECCION
    /// to every other node.
    pub fn notificar_finalizacion(&self) -> (r: Vec<Envio>)
        ensures
            r@ == a_los_demas(CodigoLider::ELECCION, self.id()),
    {
        difundir(CodigoLider::ELECCION, 0, self.id)
    }

    /// Starts an election, unless one is running or the node is stopping:
    /// the leader becomes unknown, the OK flag is cleared, and ELECCION goes
    /// to every node of higher id.
    pub fn buscar_nuevo_lider(&mut self) -> (r: Vec<Envio>)
        ensures
            efecto_buscar(*old(self), *final(self), r@),
    {
        if self.stop || self.id_lider.is_none() {
            return Vec::new();
        }
        self.id_lider = None;
        self.obtuve_ok = false;
        if self.id < TEAM_MEMBERS {
            difundir(CodigoLider::ELECCION, self.id + 1, self.id)
        } else {
            let r = Vec::new();
            assert(r@ =~= a_los_mayores(CodigoLider::ELECCION, self.id));
            r
        }
    }

    /// Ends the wait for an OK of the node's own election. Without an OK
    /// the node announces itself: COORDINADOR goes to every other node and
    /// it believes itself the leader. With an OK it waits for the
    /// announcement of another node.
    pub fn resolver_eleccion(&mut self) -> (r: Vec<Envio>)
        ensures
            efecto_resolver(*old(self), *final(self), r@),
    {
        if self.obtuve_ok {
            return Vec::new();
        }
        let r = difundir(CodigoLider::COORDINADOR, 0, self.id);
        self.id_lider = Some(self.id);
        r
    }

    /// Handles a message of another node. OK marks that a node of higher
    /// priority is alive. ELECCION is answered with OK, and starts an
    /// election of this node when it knew a leader. COORDINADOR makes its
    /// sender the leader. VERIFICAR is answered with COORDINADOR when this
    /// node is the leader.
    pub fn recibir(&mut self, mensaje: MensajeLider) -> (r: Reaccion)
        ensures
            final(self).id() == old(self).id(),
            final(self).detenido() == old(self).detenido(),
            match mensaje.codigo {
                CodigoLider::OK => {
                    &&& final(self).ok_recibido()
                    &&& final(self).lider() == old(self).lider()
                    &&& r.envios@.len() == 0
                    &&& !r.nueva_eleccion
                },
                CodigoLider::ELECCION => {
                    &&& *final(self) == *old(self)
                    &&& r.envios@ == seq![
                        Envio { codigo: CodigoLider::OK, destino: mensaje.id_emisor },
                    ]
                    &&& r.nueva_eleccion == old(self).lider() is Some
                },
                CodigoLider::COORDINADOR => {
                    &&& final(self).lider() == Some(mensaje.id_emisor)
                    &&& final(self).ok_recibido() == old(self).ok_recibido()
                    &&& r.envios@.len() == 0
                    &&& !r.nueva_eleccion
                },
                CodigoLider::VERIFICAR => {
                    &&& *final(self) == *old(self)
                    &&& r.envios@ == if old(self).se_cree_lider() {
                        seq![Envio { codigo: CodigoLider::COORDINADOR, destino: mensaje.id_emisor }]
                    } else {
                        Seq::empty()
                    }
                    &&& !r.nueva_eleccion
                },
            },
    {
        let mut envios: Vec<Envio> = Vec::new();
        let mut nueva_eleccion = false;
        match mensaje.codigo {
            CodigoLider::OK => {
                self.obtuve_ok = true;
            },
            CodigoLider::ELECCION => {
                envios.push(Envio { codigo: CodigoLider::OK, destino: mensaje.id_emisor });
                nueva_eleccion = self.id_lider.is_some();
            },
            CodigoLider::COORDINADOR => {
                self.id_lider = Some(mensaje.id_emisor);
            },
            CodigoLider::VERIFICAR => {
                if self.soy_lider() {
                    envios.push(
                        Envio { codigo: CodigoLider::COORDINADOR, destino: mensaje.id_emisor },
                    );
                }
            },
        }
        assert(envios@.len() == 0 ==> envios@ =~= Seq::<Envio>::empty());
        Reaccion { envios, nueva_eleccion }
    }

    /// Whether nothing heard for a whole receive timeout must start an
    /// election: it must unless the node is the leader.
    pub fn sin_noticias(&self) -> (r: bool)
        ensures
            r == !self.se_cree_lider(),
    {
        !self.soy_lider()
    }

    /// The node that the keep-alive asks with VERIFICAR: the leader, while
    /// it is another node and the node is not stopping.
    pub fn destino_verificar(&self) -> (r: Option<usize>)
        ensures
            r == (if !self.detenido() && self.lider() is Some && self.lider()->0 != self.id() {
                self.lider()
            } else {
                None
            }),
    {
        if self.stop {
            return None;
        }
        match self.id_lider {
            Some(l) => if l != self.id {
                Some(l)
            } else {
                None
            },
            None => None,
        }
    }

    /// Stops the node: no more elections; ELECCION goes to every other node
    /// so that they elect again.
    pub fn finalizar(&mut self) -> (r: Vec<Envio>)
        ensures
            final(self).detenido(),
            final(self).id() == old(self).id(),
            final(self).lider() == old(self).lider(),
            r@ == a_los_demas(CodigoLider::ELECCION, old(self).id()),
    {
        self.stop = true;
        self.notificar_finalizacion()
    }
}

/// The message that an envelope sends from node `id`.
pub fn mensaje_de(envio: &Envio, id: usize) -> (r: MensajeLider)
    ensures
        r == (MensajeLider { codigo: envio.codigo, id_emisor: id }),
{
    MensajeLider::new(envio.codigo, id)
}

/// What starting an election does to `e0`: nothing when it is stopping or
/// an election already runs; otherwise the leader becomes unknown, the OK
/// flag is cleared, and ELECCION goes to every node of higher id.
pub open spec fn efecto_buscar(e0: EleccionLider, e1: EleccionLider, envios: Seq<Envio>) -> bool {
    &&& e1.id() == e0.id()
    &&& e1.detenido() == e0.detenido()
    &&& if e0.detenido() || e0.lider() is None {
        e1 == e0 && envios.len() == 0
    } else {
        &&& e1.lider() is None
        &&& !e1.ok_recibido()
        &&& envios == a_los_mayores(CodigoLider::ELECCION, e0.id())
    }
}

/// What ending the wait for an OK does to `e0`: with an OK nothing changes;
/// without one the node announces itself to every other node and believes
/// itself the leader.
pub open spec fn efecto_resolver(e0: EleccionLider, e1: EleccionLider, envios: Seq<Envio>) -> bool {
    &&& e1.id() == e0.id()
    &&& e1.detenido() == e0.detenido()
    &&& e1.ok_recibido() == e0.ok_recibido()
    &&& if e0.ok_recibido() {
        e1 == e0 && envios.len() == 0
    } else {
        &&& e1.lider() == Some(e0.id())
        &&& envios == a_los_demas(CodigoLider::COORDINADOR, e0.id())
    }
}

/// A follower that hears nothing for a whole receive timeout starts an
/// election; when no OK comes during it, the round ends with the follower
/// as the known leader, after it announced itself to every other node.
pub proof fn lema_ronda_sin_ok(
    e0: EleccionLider,
    e1: EleccionLider,
    e2: EleccionLider,
    e3: EleccionLider,
    pedidas: Seq<Envio>,
    anuncios: Seq<Envio>,
)
    requires
        !e0.detenido(),
        e0.lider() is Some,
        !e0.se_cree_lider(),
        efecto_buscar(e0, e1, pedidas),
        e2.id() == e1.id() && e2.detenido() == e1.detenido() && !e2.ok_recibido(),
        efecto_resolver(e2, e3, anuncios),
    ensures
        pedidas == a_los_mayores(CodigoLider::ELECCION, e0.id()),
        e3.lider() == Some(e0.id()),
        e3.se_cree_lider(),
        anuncios == a_los_demas(CodigoLider::COORDINADOR, e0.id()),
{
}

} // verus!
