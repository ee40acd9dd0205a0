use simdb::db::{DB, DBERROR};
use simdb::numeric::{BigNumber, Datatype};

#[test]
fn duplicate_workflow_rejected_and_contents_kept() {
    let mut db = DB::new("db", "raw.bin", "overview.bin");
    assert!(db.add_workflow("w1").is_ok());
    db.get_mut_workflow("w1").unwrap().add_resource("r").unwrap();

    assert_eq!(db.add_workflow("w1"), Err(DBERROR::DataAlreadyExist));

    let w = db.get_workflow("w1").unwrap();
    assert!(w.get_resource("r").is_ok());
}

#[test]
fn fresh_workflow_has_empty_collections() {
    let mut db = DB::new("db", "r", "o");
    assert_eq!(db.add_workflow("w1"), Ok(()));
    let w = db.get_workflow("w1").unwrap();
    assert_eq!(w.get_resource("a").err(), Some(DBERROR::DataNotExist));
    assert_eq!(w.get_container("a").err(), Some(DBERROR::DataNotExist));
    assert_eq!(w.get_store("a").err(), Some(DBERROR::DataNotExist));
    assert_eq!(w.get_custom("a").err(), Some(DBERROR::DataNotExist));
}

#[test]
fn missing_names_report_not_found() {
    let mut db = DB::new("db", "r", "o");
    assert_eq!(db.get_workflow("nope").err(), Some(DBERROR::DataNotExist));
    assert_eq!(db.get_mut_workflow("nope").err(), Some(DBERROR::DataNotExist));

    db.add_workflow("w").unwrap();
    let w = db.get_mut_workflow("w").unwrap();
    assert_eq!(w.get_mut_resource("a").err(), Some(DBERROR::DataNotExist));
    assert_eq!(w.get_mut_container("a").err(), Some(DBERROR::DataNotExist));
    assert_eq!(w.get_mut_store("a").err(), Some(DBERROR::DataNotExist));
    assert_eq!(w.get_mut_custom("a").err(), Some(DBERROR::DataNotExist));

    // The failed lookups mutated nothing: the workflow is still empty.
    let w = db.get_workflow("w").unwrap();
    assert!(w.get_resource("a").is_err());
}

#[test]
fn container_logs_keep_append_order() {
    let mut db = DB::new("db", "r", "o");
    db.add_workflow("w").unwrap();
    let w = db.get_mut_workflow("w").unwrap();
    w.add_container("c").unwrap();
    let c = w.get_mut_container("c").unwrap();
    c.add_put_time(BigNumber::Int(10), BigNumber::Int(5), BigNumber::Int(5), "u1").unwrap();
    c.add_put_time(BigNumber::Int(20), BigNumber::Int(3), BigNumber::Int(8), "u2").unwrap();
    c.add_get_time(BigNumber::Int(30), BigNumber::Int(2), BigNumber::Int(6), "u3").unwrap();

    let c = db.get_workflow("w").unwrap().get_container("c").unwrap();
    let puts = c.put_times();
    assert_eq!(puts.len(), 2);
    assert_eq!(
        puts[0],
        (BigNumber::Int(10), BigNumber::Int(5), BigNumber::Int(5), String::from("u1"))
    );
    assert_eq!(
        puts[1],
        (BigNumber::Int(20), BigNumber::Int(3), BigNumber::Int(8), String::from("u2"))
    );
    let gets = c.get_times();
    assert_eq!(gets.len(), 1);
    assert_eq!(
        gets[0],
        (BigNumber::Int(30), BigNumber::Int(2), BigNumber::Int(6), String::from("u3"))
    );
}

#[test]
fn store_logs_keep_append_order() {
    let mut db = DB::new("db", "r", "o");
    db.add_workflow("w").unwrap();
    let w = db.get_mut_workflow("w").unwrap();
    w.add_store("s").unwrap();
    let s = w.get_mut_store("s").unwrap();
    s.add_put_time(BigNumber::Int(10), BigNumber::Int(5), BigNumber::Int(5), "u1").unwrap();
    s.add_put_time(BigNumber::Int(20), BigNumber::Int(3), BigNumber::Int(8), "u2").unwrap();

    let s = db.get_workflow("w").unwrap().get_store("s").unwrap();
    let puts = s.put_times();
    assert_eq!(puts.len(), 2);
    assert_eq!(
        puts[0],
        (BigNumber::Int(10), BigNumber::Int(5), BigNumber::Int(5), String::from("u1"))
    );
    assert_eq!(
        puts[1],
        (BigNumber::Int(20), BigNumber::Int(3), BigNumber::Int(8), String::from("u2"))
    );
    assert_eq!(s.get_times().len(), 0);
}

#[test]
fn cross_namespace_name_reuse() {
    let mut db = DB::new("db", "r", "o");
    db.add_workflow("w").unwrap();
    let w = db.get_mut_workflow("w").unwrap();
    assert_eq!(w.add_resource("x"), Ok(()));
    assert_eq!(w.add_container("x"), Ok(()));
    assert_eq!(w.add_store("x"), Ok(()));
    assert_eq!(w.add_custom("x"), Ok(()));
    assert_eq!(w.add_resource("x"), Err(DBERROR::DataAlreadyExist));
    assert_eq!(w.add_container("x"), Err(DBERROR::DataAlreadyExist));
    assert!(w.get_resource("x").is_ok());
    assert!(w.get_container("x").is_ok());
}

#[test]
fn end_to_end_resource_log() {
    let mut db = DB::new("db", "raw", "ov");
    db.add_workflow("w1").unwrap();
    let w = db.get_mut_workflow("w1").unwrap();
    w.add_resource("r1").unwrap();
    let r = w.get_mut_resource("r1").unwrap();
    r.add_user_time("u1", BigNumber::Int(70), BigNumber::Int(80)).unwrap();
    r.add_enter_time("u1", BigNumber::Int(89)).unwrap();
    r.add_leave_time("u1", BigNumber::Int(90)).unwrap();

    let r = db.get_workflow("w1").unwrap().get_resource("r1").unwrap();
    let user = r.user_times();
    assert_eq!(user.len(), 1);
    assert_eq!(user[0], (String::from("u1"), BigNumber::Int(70), BigNumber::Int(80)));
    let enter = r.enter_times();
    assert_eq!(enter.len(), 1);
    assert_eq!(enter[0], (String::from("u1"), BigNumber::Int(89)));
    let leave = r.leave_times();
    assert_eq!(leave.len(), 1);
    assert_eq!(leave[0], (String::from("u1"), BigNumber::Int(90)));
}

#[test]
fn repeated_user_events_are_all_kept() {
    let mut db = DB::new("db", "r", "o");
    db.add_workflow("w").unwrap();
    let w = db.get_mut_workflow("w").unwrap();
    w.add_resource("r").unwrap();
    let r = w.get_mut_resource("r").unwrap();
    r.add_user_time("u", BigNumber::Int(1), BigNumber::Int(0)).unwrap();
    r.add_user_time("u", BigNumber::Int(1), BigNumber::Int(0)).unwrap();
    r.add_user_time("u", BigNumber::Int(2), BigNumber::Int(1)).unwrap();
    assert_eq!(r.user_times().len(), 3);
    assert_eq!(r.user_times()[1], (String::from("u"), BigNumber::Int(1), BigNumber::Int(0)));
}

#[test]
fn custom_component_description_and_defaults() {
    let mut db = DB::new("db", "r", "o");
    db.add_workflow("w").unwrap();
    let w = db.get_mut_workflow("w").unwrap();
    w.add_custom("k").unwrap();
    let k = w.get_mut_custom("k").unwrap();
    assert_eq!(k.description(), "");
    k.set_description("a sensor");
    k.default_data("kind", Datatype::Text(String::from("gauge")));
    k.default_data("limit", Datatype::Int(5));
    // Last write wins on reinsertion.
    k.default_data("kind", Datatype::Bool(true));

    let k = db.get_workflow("w").unwrap().get_custom("k").unwrap();
    assert_eq!(k.description(), "a sensor");
    assert_eq!(k.get_default("kind"), Some(&Datatype::Bool(true)));
    assert_eq!(k.get_default("limit"), Some(&Datatype::Int(5)));
    assert_eq!(k.get_default("other"), None);
}

#[test]
fn independent_databases_coexist() {
    let mut a = DB::new("a", "ra", "oa");
    let mut b = DB::new("b", "rb", "ob");
    a.add_workflow("w").unwrap();
    assert!(b.get_workflow("w").is_err());
    b.add_workflow("w").unwrap();
    assert!(a.get_workflow("w").is_ok());
    assert!(b.get_workflow("w").is_ok());
}

#[test]
fn empty_name_is_an_ordinary_key() {
    let mut db = DB::new("", "", "");
    assert_eq!(db.add_workflow(""), Ok(()));
    assert_eq!(db.add_workflow(""), Err(DBERROR::DataAlreadyExist));
    assert!(db.get_workflow("").is_ok());
}
