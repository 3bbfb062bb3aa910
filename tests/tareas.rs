use todo_api::tarea::{
    actualizar_tarea, crear_tarea, default_estado, eliminar_tarea, listar_tareas, obtener_tarea,
    ActualizarTareaRequest, ColeccionTareas, CrearTareaRequest, EstadoTarea, Tarea, TareaError,
};

fn crear(c: &mut ColeccionTareas, descripcion: &str, estado: EstadoTarea) -> Tarea {
    crear_tarea(c, CrearTareaRequest { descripcion: descripcion.to_string(), estado }).unwrap()
}

#[test]
fn escenario_ciclo_de_una_tarea() {
    let mut c = ColeccionTareas::new();
    let t = crear(&mut c, "buy milk", default_estado());
    assert_eq!(t.estado, EstadoTarea::Pendiente);
    assert_eq!(t.descripcion, "buy milk");
    let id = t.id.clone().unwrap();

    let g = obtener_tarea(&c, &id).unwrap();
    assert_eq!(g.id, t.id);
    assert_eq!(g.descripcion, t.descripcion);
    assert_eq!(g.fecha_creacion, t.fecha_creacion);
    assert_eq!(g.estado, t.estado);

    let u = actualizar_tarea(
        &mut c,
        &id,
        ActualizarTareaRequest { descripcion: None, estado: Some(EstadoTarea::Realizada) },
    )
    .unwrap();
    assert_eq!(u.descripcion, "buy milk");
    assert_eq!(u.estado, EstadoTarea::Realizada);
    assert_eq!(u.fecha_creacion, t.fecha_creacion);

    assert_eq!(eliminar_tarea(&mut c, &id), Ok(()));
    let e = obtener_tarea(&c, &id).unwrap_err();
    assert_eq!(e, TareaError::NoEncontrada);
    assert_eq!(e.codigo_http(), 404);
}

#[test]
fn actualizacion_vacia_falla_para_tarea_existente() {
    let mut c = ColeccionTareas::new();
    let t = crear(&mut c, "leer", EstadoTarea::Ejecucion);
    let id = t.id.unwrap();
    let e = actualizar_tarea(&mut c, &id, ActualizarTareaRequest { descripcion: None, estado: None }).unwrap_err();
    assert_eq!(e, TareaError::ActualizacionVacia);
    assert_eq!(e.codigo_http(), 400);
    let g = obtener_tarea(&c, &id).unwrap();
    assert_eq!(g.descripcion, "leer");
    assert_eq!(g.estado, EstadoTarea::Ejecucion);
}

#[test]
fn actualizacion_parcial_deja_el_estado() {
    let mut c = ColeccionTareas::new();
    let t = crear(&mut c, "a", EstadoTarea::Ejecucion);
    let id = t.id.unwrap();
    let u = actualizar_tarea(
        &mut c,
        &id,
        ActualizarTareaRequest { descripcion: Some("b".to_string()), estado: None },
    )
    .unwrap();
    assert_eq!(u.descripcion, "b");
    assert_eq!(u.estado, EstadoTarea::Ejecucion);
}

#[test]
fn id_invalido_da_400() {
    let mut c = ColeccionTareas::new();
    crear(&mut c, "x", EstadoTarea::Pendiente);
    for id in ["", "abc", "zzzzzzzzzzzzzzzzzzzzzzzz", "0123456789abcdef012345678"] {
        assert_eq!(obtener_tarea(&c, id).unwrap_err(), TareaError::IdInvalido);
        assert_eq!(eliminar_tarea(&mut c, id), Err(TareaError::IdInvalido));
        let e = actualizar_tarea(
            &mut c,
            id,
            ActualizarTareaRequest { descripcion: Some("y".to_string()), estado: None },
        )
        .unwrap_err();
        assert_eq!(e, TareaError::IdInvalido);
    }
    assert_eq!(TareaError::IdInvalido.codigo_http(), 400);
    assert_eq!(listar_tareas(&c).len(), 1);
}

#[test]
fn id_valido_pero_ausente_da_404() {
    let mut c = ColeccionTareas::new();
    let id = "0123456789abcdef01234567";
    assert_eq!(obtener_tarea(&c, id).unwrap_err(), TareaError::NoEncontrada);
    assert_eq!(eliminar_tarea(&mut c, id), Err(TareaError::NoEncontrada));
    let e = actualizar_tarea(
        &mut c,
        id,
        ActualizarTareaRequest { descripcion: None, estado: Some(EstadoTarea::Realizada) },
    )
    .unwrap_err();
    assert_eq!(e, TareaError::NoEncontrada);
}

#[test]
fn id_en_mayusculas_encuentra_la_tarea() {
    let mut c = ColeccionTareas::new();
    let t = crear(&mut c, "x", EstadoTarea::Pendiente);
    let id = t.id.unwrap();
    assert_eq!(id.len(), 24);
    assert!(id.chars().all(|ch| ch.is_ascii_digit() || ('a'..='f').contains(&ch)));
    let mayus = id.to_uppercase();
    let g = obtener_tarea(&c, &mayus).unwrap();
    assert_eq!(g.id, Some(id));
}

#[test]
fn listar_devuelve_todas_en_orden() {
    let mut c = ColeccionTareas::new();
    assert!(listar_tareas(&c).is_empty());
    let a = crear(&mut c, "a", EstadoTarea::Pendiente);
    let b = crear(&mut c, "b", EstadoTarea::Realizada);
    assert_ne!(a.id, b.id);
    let l = listar_tareas(&c);
    assert_eq!(l.len(), 2);
    assert_eq!(l[0].descripcion, "a");
    assert_eq!(l[1].descripcion, "b");
    assert_eq!(l[1].estado, EstadoTarea::Realizada);
    assert_eq!(eliminar_tarea(&mut c, a.id.as_ref().unwrap()), Ok(()));
    let l = listar_tareas(&c);
    assert_eq!(l.len(), 1);
    assert_eq!(l[0].id, b.id);
}

#[test]
fn aplicar_y_vacia() {
    let t = Tarea::nueva("d".to_string(), EstadoTarea::Pendiente);
    assert!(t.id.is_none());
    assert!(ActualizarTareaRequest { descripcion: None, estado: None }.es_vacia());
    assert!(!ActualizarTareaRequest { descripcion: None, estado: Some(EstadoTarea::Ejecucion) }.es_vacia());
    let u = t.aplicar(ActualizarTareaRequest { descripcion: None, estado: Some(EstadoTarea::Ejecucion) });
    assert_eq!(u.descripcion, "d");
    assert_eq!(u.estado, EstadoTarea::Ejecucion);
}
