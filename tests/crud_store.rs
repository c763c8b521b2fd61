use guis::crud::{CrudModel, Db, User};

fn names(db: &Db, positions: &[usize]) -> Vec<String> {
    positions.iter().map(|&i| db.get(i).name.clone()).collect()
}

#[test]
fn new_store_holds_samples() {
    let db = Db::new();
    assert_eq!(db.len(), 3);
    assert_eq!(db.get(0).name, "Hans");
    assert_eq!(db.get(1).surname, "Mustermann");
    assert_eq!(db.get(2).id, 2);
}

#[test]
fn create_hands_out_next_id() {
    let mut db = Db::new();
    assert_eq!(db.create("Ada", "Lovelace"), Some(3));
    assert_eq!(db.create("Alan", "Turing"), Some(4));
    assert_eq!(db.len(), 5);
    assert_eq!(db.get(4).surname, "Turing");
}

#[test]
fn update_renames_matching_user_only() {
    let mut db = Db::new();
    db.update(1, "Erika", "Musterfrau");
    assert_eq!(db.get(1).name, "Erika");
    assert_eq!(db.get(1).surname, "Musterfrau");
    assert_eq!(db.get(0).name, "Hans");
    db.update(42, "Nobody", "Here");
    assert_eq!(db.len(), 3);
    assert_eq!(db.get(2).name, "Roman");
}

#[test]
fn delete_removes_by_id() {
    let mut db = Db::new();
    assert!(db.delete(1));
    assert_eq!(db.len(), 2);
    assert_eq!(db.get(1).name, "Roman");
    assert!(!db.delete(1));
    assert_eq!(db.create("New", "User"), Some(3));
}

#[test]
fn query_ignores_case() {
    let db = Db::new();
    assert_eq!(names(&db, &db.query("MA")), vec!["Max", "Roman"]);
    assert_eq!(names(&db, &db.query("tisch")), vec!["Roman"]);
    assert_eq!(db.query("zzz"), Vec::<usize>::new());
    assert_eq!(db.query(""), vec![0, 1, 2]);
}

#[test]
fn user_update_keeps_id() {
    let mut u = User::new(7, "A", "B");
    u.update("C", "D");
    assert_eq!(u.id, 7);
    assert_eq!(u.name, "C");
    assert_eq!(u.surname, "D");
}

#[test]
fn form_creates_updates_and_deletes() {
    let mut m = CrudModel::new();
    m.set_name_input("Grace");
    m.set_surname_input("Hopper");
    assert_eq!(m.create(), Some(3));
    assert_eq!(m.db().get(3).name, "Grace");
    m.update_selected();
    assert_eq!(m.db().get(3).name, "Grace");
    m.select(Some(0));
    m.set_name_input("Hans-Peter");
    m.update_selected();
    assert_eq!(m.db().get(0).name, "Hans-Peter");
    assert_eq!(m.db().get(0).surname, "Hopper");
    assert!(m.delete_selected());
    assert_eq!(m.selection(), None);
    assert_eq!(m.db().len(), 3);
    assert!(!m.delete_selected());
    m.set_query("hop");
    assert_eq!(m.visible(), vec![2]);
}
