//! Task records and the collection that holds them: create, list, get,
//! partial update and delete.
use vstd::prelude::*;
use crate::externo::{ahora_ms, canonizar_object_id, nuevo_object_id, es_object_id, es_object_id_canonico, object_id_canonico};

verus! {

#[derive(PartialEq, Eq, Structural, Clone, Copy, Debug)]
pub enum EstadoTarea {
    Pendiente,
    Ejecucion,
    Realizada,
}

/// A task. `fecha_creacion` is in milliseconds since the epoch; `id` is the
/// canonical text of an object id, absent before the task is stored.
#[derive(Debug)]
pub struct Tarea {
    pub id: Option<String>,
    pub descripcion: String,
    pub fecha_creacion: i64,
    pub estado: EstadoTarea,
}

#[derive(Debug)]
pub struct CrearTareaRequest {
    pub descripcion: String,
    pub estado: EstadoTarea,
}

/// A partial update: only the fields that are present change.
#[derive(Debug)]
pub struct ActualizarTareaRequest {
    pub descripcion: Option<String>,
    pub estado: Option<EstadoTarea>,
}

#[derive(PartialEq, Eq, Structural, Clone, Copy, Debug)]
pub enum TareaError {
    /// The id is not the text of an object id.
    IdInvalido,
    /// No task has that id.
    NoEncontrada,
    /// The update names no field.
    ActualizacionVacia,
    /// The store could not take the task.
    Interno,
}

impl TareaError {
    /// The HTTP status that answers the error.
    pub fn codigo_http(&self) -> (r: u16)
        ensures
            r == match *self {
                TareaError::IdInvalido => 400u16,
                TareaError::NoEncontrada => 404u16,
                TareaError::ActualizacionVacia => 400u16,
                TareaError::Interno => 500u16,
            },
    {
        match self {
            TareaError::IdInvalido => 400,
            TareaError::NoEncontrada => 404,
            TareaError::ActualizacionVacia => 400,
            TareaError::Interno => 500,
        }
    }
}

/// The status a task takes when its creation names none.
pub fn default_estado() -> (r: EstadoTarea)
    ensures
        r == EstadoTarea::Pendiente,
{
    EstadoTarea::Pendiente
}

pub open spec fn tiene_id(t: Tarea, id: Seq<char>) -> bool {
    (t.id matches Some(i) && i@ == id)
}

/// The task after a partial update.
pub open spec fn actualizada(t: Tarea, p: ActualizarTareaRequest) -> Tarea {
    Tarea {
        id: t.id,
        descripcion: match p.descripcion {
            Some(d) => d,
            None => t.descripcion,
        },
        fecha_creacion: t.fecha_creacion,
        estado: match p.estado {
            Some(e) => e,
            None => t.estado,
        },
    }
}

impl Tarea {
    /// A task not yet stored, created at `ahora` (milliseconds).
    pub fn nueva_en(descripcion: String, estado: EstadoTarea, ahora: i64) -> (r: Tarea)
        ensures
            r == (Tarea { id: None, descripcion, fecha_creacion: ahora, estado }),
    {
        Tarea { id: None, descripcion, fecha_creacion: ahora, estado }
    }

    /// A task not yet stored, created now.
    pub fn nueva(descripcion: String, estado: EstadoTarea) -> (r: Tarea)
        ensures
            r.id is None,
            r.descripcion == descripcion,
            r.estado == estado,
            r.fecha_creacion >= 0,
    {
        Tarea::nueva_en(descripcion, estado, ahora_ms())
    }

    pub fn copiar(&self) -> (r: Tarea)
        ensures
            r == *self,
    {
        let id = match &self.id {
            Some(i) => Some(i.clone()),
            None => None,
        };
        Tarea { id, descripcion: self.descripcion.clone(), fecha_creacion: self.fecha_creacion, estado: self.estado }
    }

    /// Applies a partial update: the fields it names change, the rest stay.
    pub fn aplicar(self, p: ActualizarTareaRequest) -> (r: Tarea)
        ensures
            r == actualizada(self, p),
    {
        Tarea {
            id: self.id,
            descripcion: match p.descripcion {
                Some(d) => d,
                None => self.descripcion,
            },
            fecha_creacion: self.fecha_creacion,
            estado: match p.estado {
                Some(e) => e,
                None => self.estado,
            },
        }
    }
}

impl ActualizarTareaRequest {
    pub fn es_vacia(&self) -> (r: bool)
        ensures
            r == (self.descripcion is None && self.estado is None),
    {
        self.descripcion.is_none() && self.estado.is_none()
    }
}

/// The stored tasks, in the order the store keeps them.
#[derive(Debug)]
pub struct ColeccionTareas {
    pub tareas: Vec<Tarea>,
}

impl ColeccionTareas {
    /// Every stored task has a canonical id, and no two share one.
    pub open spec fn bien_formada(&self) -> bool {
        &&& forall|i: int| 0 <= i < self.tareas@.len() ==>
            ((#[trigger] self.tareas@[i]).id matches Some(id) && es_object_id_canonico(id@))
        &&& forall|i: int, j: int| 0 <= i < self.tareas@.len() && 0 <= j < self.tareas@.len() && i != j
            ==> (#[trigger] self.tareas@[i]).id->0@ != (#[trigger] self.tareas@[j]).id->0@
    }

    pub open spec fn contiene(&self, id: Seq<char>) -> bool {
        exists|i: int| 0 <= i < self.tareas@.len() && tiene_id(#[trigger] self.tareas@[i], id)
    }

    pub fn new() -> (r: ColeccionTareas)
        ensures
            r.bien_formada(),
            r.tareas@.len() == 0,
    {
        ColeccionTareas { tareas: Vec::new() }
    }

    /// The position of the task with the given id.
    pub fn buscar(&self, id: &String) -> (r: Option<usize>)
        ensures
            r matches Some(i) ==> i < self.tareas@.len() && tiene_id(self.tareas@[i as int], id@),
            r is None ==> !self.contiene(id@),
    {
        let mut i: usize = 0;
        while i < self.tareas.len()
            invariant
                i <= self.tareas@.len(),
                forall|k: int| 0 <= k < i ==> !tiene_id(#[trigger] self.tareas@[k], id@),
            decreases self.tareas@.len() - i,
        {
            let coincide = match &self.tareas[i].id {
                Some(t) => *t == *id,
                None => false,
            };
            if coincide {
                return Some(i);
            }
            i = i + 1;
        }
        None
    }
}

/// Stores a new task under `id`, created at `ahora` (milliseconds), and
/// returns it as stored; fails exactly when the id is already taken.
pub fn crear_tarea_con_id(coleccion: &mut ColeccionTareas, payload: CrearTareaRequest, id: String, ahora: i64) -> (r: Result<Tarea, TareaError>)
    requires
        old(coleccion).bien_formada(),
        es_object_id_canonico(id@),
    ensures
        final(coleccion).bien_formada(),
        r is Err <==> old(coleccion).contiene(id@),
        r matches Ok(t) ==> {
            &&& t == (Tarea { id: Some(id), descripcion: payload.descripcion, fecha_creacion: ahora, estado: payload.estado })
            &&& final(coleccion).tareas@ == old(coleccion).tareas@.push(t)
        },
        r is Err ==> r == Err::<Tarea, TareaError>(TareaError::Interno) && *final(coleccion) == *old(coleccion),
{
    if coleccion.buscar(&id).is_some() {
        return Err(TareaError::Interno);
    }
    let mut tarea = Tarea::nueva_en(payload.descripcion, payload.estado, ahora);
    tarea.id = Some(id);
    let guardada = tarea.copiar();
    coleccion.tareas.push(tarea);
    proof {
        let s = coleccion.tareas@;
        assert forall|i: int, j: int| 0 <= i < s.len() && 0 <= j < s.len() && i != j
            implies (#[trigger] s[i]).id->0@ != (#[trigger] s[j]).id->0@ by {
            if i == s.len() - 1 {
                assert(!tiene_id(old(coleccion).tareas@[j], id@));
            } else if j == s.len() - 1 {
                assert(!tiene_id(old(coleccion).tareas@[i], id@));
            }
        }
    }
    Ok(guardada)
}

/// Stores a new task under a freshly drawn id, created now. It fails only
/// where the drawn id is already taken, which cannot happen on an empty
/// collection.
pub fn crear_tarea(coleccion: &mut ColeccionTareas, payload: CrearTareaRequest) -> (r: Result<Tarea, TareaError>)
    requires
        old(coleccion).bien_formada(),
    ensures
        final(coleccion).bien_formada(),
        old(coleccion).tareas@.len() == 0 ==> r is Ok,
        r matches Ok(t) ==> {
            &&& t.id is Some
            &&& !old(coleccion).contiene(t.id->0@)
            &&& t.descripcion == payload.descripcion
            &&& t.estado == payload.estado
            &&& t.fecha_creacion >= 0
            &&& final(coleccion).tareas@ == old(coleccion).tareas@.push(t)
        },
        r is Err ==> r == Err::<Tarea, TareaError>(TareaError::Interno) && *final(coleccion) == *old(coleccion),
{
    let id = nuevo_object_id();
    let ahora = ahora_ms();
    crear_tarea_con_id(coleccion, payload, id, ahora)
}

/// Every stored task, in store order.
pub fn listar_tareas(coleccion: &ColeccionTareas) -> (r: Vec<Tarea>)
    ensures
        r@ == coleccion.tareas@,
{
    let mut r: Vec<Tarea> = Vec::new();
    let mut i: usize = 0;
    while i < coleccion.tareas.len()
        invariant
            i <= coleccion.tareas@.len(),
            r@ == coleccion.tareas@.subrange(0, i as int),
        decreases coleccion.tareas@.len() - i,
    {
        r.push(coleccion.tareas[i].copiar());
        i = i + 1;
    }
    assert(coleccion.tareas@.subrange(0, i as int) == coleccion.tareas@);
    r
}

/// The task with the given id.
pub fn obtener_tarea(coleccion: &ColeccionTareas, id: &str) -> (r: Result<Tarea, TareaError>)
    ensures
        !es_object_id(id@) ==> r == Err::<Tarea, TareaError>(TareaError::IdInvalido),
        es_object_id(id@) ==> (r is Ok <==> coleccion.contiene(object_id_canonico(id@))),
        es_object_id(id@) && r is Err ==> r == Err::<Tarea, TareaError>(TareaError::NoEncontrada),
        r matches Ok(t) ==> exists|i: int| 0 <= i < coleccion.tareas@.len()
            && coleccion.tareas@[i] == t && tiene_id(t, object_id_canonico(id@)),
{
    let canonico = match canonizar_object_id(id) {
        Some(c) => c,
        None => return Err(TareaError::IdInvalido),
    };
    match coleccion.buscar(&canonico) {
        Some(i) => Ok(coleccion.tareas[i].copiar()),
        None => Err(TareaError::NoEncontrada),
    }
}

/// Applies a partial update to the task with the given id and returns it.
pub fn actualizar_tarea(coleccion: &mut ColeccionTareas, id: &str, payload: ActualizarTareaRequest) -> (r: Result<Tarea, TareaError>)
    requires
        old(coleccion).bien_formada(),
    ensures
        final(coleccion).bien_formada(),
        !es_object_id(id@) ==> r == Err::<Tarea, TareaError>(TareaError::IdInvalido),
        es_object_id(id@) && payload.descripcion is None && payload.estado is None
            ==> r == Err::<Tarea, TareaError>(TareaError::ActualizacionVacia),
        es_object_id(id@) && !(payload.descripcion is None && payload.estado is None)
            && !old(coleccion).contiene(object_id_canonico(id@))
            ==> r == Err::<Tarea, TareaError>(TareaError::NoEncontrada),
        forall|i: int| 0 <= i < old(coleccion).tareas@.len()
            && es_object_id(id@) && !(payload.descripcion is None && payload.estado is None)
            && tiene_id(#[trigger] old(coleccion).tareas@[i], object_id_canonico(id@)) ==> {
                &&& r == Ok::<Tarea, TareaError>(actualizada(old(coleccion).tareas@[i], payload))
                &&& final(coleccion).tareas@ == old(coleccion).tareas@.update(i, actualizada(old(coleccion).tareas@[i], payload))
            },
        r is Err ==> *final(coleccion) == *old(coleccion),
{
    let canonico = match canonizar_object_id(id) {
        Some(c) => c,
        None => return Err(TareaError::IdInvalido),
    };
    if payload.es_vacia() {
        return Err(TareaError::ActualizacionVacia);
    }
    match coleccion.buscar(&canonico) {
        Some(i) => {
            proof {
                let s = old(coleccion).tareas@;
                assert forall|k: int| 0 <= k < s.len() && tiene_id(#[trigger] s[k], canonico@) implies k == i by {
                    if k != i {
                        assert(s[k].id->0@ != s[i as int].id->0@);
                    }
                }
            }
            let vieja = coleccion.tareas[i].copiar();
            let nueva = vieja.aplicar(payload);
            let devuelta = nueva.copiar();
            coleccion.tareas.set(i, nueva);
            proof {
                let s = coleccion.tareas@;
                let o = old(coleccion).tareas@;
                assert forall|a: int| 0 <= a < s.len() implies (#[trigger] s[a]).id == o[a].id by {}
                assert forall|a: int, b: int| 0 <= a < s.len() && 0 <= b < s.len() && a != b
                    implies (#[trigger] s[a]).id->0@ != (#[trigger] s[b]).id->0@ by {
                    assert(o[a].id->0@ != o[b].id->0@);
                }
            }
            Ok(devuelta)
        },
        None => Err(TareaError::NoEncontrada),
    }
}

/// Removes the task with the given id.
pub fn eliminar_tarea(coleccion: &mut ColeccionTareas, id: &str) -> (r: Result<(), TareaError>)
    requires
        old(coleccion).bien_formada(),
    ensures
        final(coleccion).bien_formada(),
        !es_object_id(id@) ==> r == Err::<(), TareaError>(TareaError::IdInvalido),
        es_object_id(id@) && !old(coleccion).contiene(object_id_canonico(id@))
            ==> r == Err::<(), TareaError>(TareaError::NoEncontrada),
        forall|i: int| 0 <= i < old(coleccion).tareas@.len() && es_object_id(id@)
            && tiene_id(#[trigger] old(coleccion).tareas@[i], object_id_canonico(id@)) ==> {
                &&& r is Ok
                &&& final(coleccion).tareas@ == old(coleccion).tareas@.remove(i)
            },
        es_object_id(id@) ==> !final(coleccion).contiene(object_id_canonico(id@)),
        r is Err ==> *final(coleccion) == *old(coleccion),
{
    let canonico = match canonizar_object_id(id) {
        Some(c) => c,
        None => return Err(TareaError::IdInvalido),
    };
    match coleccion.buscar(&canonico) {
        Some(i) => {
            let ghost o = old(coleccion).tareas@;
            proof {
                assert forall|k: int| 0 <= k < o.len() && tiene_id(#[trigger] o[k], canonico@) implies k == i by {
                    if k != i {
                        assert(o[k].id->0@ != o[i as int].id->0@);
                    }
                }
            }
            coleccion.tareas.remove(i);
            proof {
                let s = coleccion.tareas@;
                assert(s == o.remove(i as int));
                assert forall|a: int| 0 <= a < s.len() implies (#[trigger] s[a]) == o[if a < i { a } else { a + 1 }] by {}
                assert forall|a: int, b: int| 0 <= a < s.len() && 0 <= b < s.len() && a != b
                    implies (#[trigger] s[a]).id->0@ != (#[trigger] s[b]).id->0@ by {
                    let a2 = if a < i { a } else { a + 1 };
                    let b2 = if b < i { b } else { b + 1 };
                    assert(o[a2].id->0@ != o[b2].id->0@);
                }
                assert forall|a: int| 0 <= a < s.len() implies !tiene_id(#[trigger] s[a], canonico@) by {
                    let a2 = if a < i { a } else { a + 1 };
                    assert(s[a] == o[a2]);
                }
            }
            Ok(())
        },
        None => Err(TareaError::NoEncontrada),
    }
}

} // verus!
