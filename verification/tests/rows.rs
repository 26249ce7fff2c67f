use ordofp_core::hlist::{Coniunctio, HList, Nihil};
use ordofp_core::indices::{Here, There};
use ordofp_core::labelled::{field_with_name, Field};
use ordofp_core::rows::{
    Bool, Confluo, Extendo, Falsum, HabetCampum, Muto, Ordo, OrdoOps, Registrum, RegistrumExt,
    Renomino, Restricto, Verum,
};

#[derive(Debug, Clone, Copy, PartialEq, Eq)]
struct Name;

#[derive(Debug, Clone, Copy, PartialEq, Eq)]
struct Age;

#[derive(Debug, Clone, Copy, PartialEq, Eq)]
struct NewName;

fn name_field(value: &'static str) -> Field<Name, &'static str> {
    field_with_name("name", value)
}

fn age_field(value: i32) -> Field<Age, i32> {
    field_with_name("age", value)
}

fn one<H>(head: H) -> Coniunctio<H, Nihil> {
    Coniunctio { head, tail: Nihil }
}

fn two<H1, H2>(first: H1, second: H2) -> Coniunctio<H1, Coniunctio<H2, Nihil>> {
    Coniunctio { head: first, tail: one(second) }
}

fn assert_ordo<T: Ordo>() {}

// ---------------------------------------------------------------- campus

#[test]
fn test_habet_campum_head() {
    let record = one(name_field("Alice"));
    let name: &&str = HabetCampum::<Name, &str, Here>::get_field(&record);
    assert_eq!(*name, "Alice");
}

#[test]
fn test_habet_campum_tail() {
    let record = two(age_field(30), name_field("Alice"));
    let name: &&str = HabetCampum::<Name, &str, There<Here>>::get_field(&record);
    assert_eq!(*name, "Alice");
}

#[test]
fn test_extendo_nihil() {
    let record: Coniunctio<Field<Name, &str>, Nihil> =
        Extendo::<Name, &str>::extend(Nihil, "name", "Alice");
    assert_eq!(record.head.value, "Alice");
}

#[test]
fn test_extendo_non_empty() {
    let record = one(name_field("Alice"));
    let extended = Extendo::<Age, i32>::extend(record, "age", 30i32);
    assert_eq!(extended.head.value, 30);
    assert_eq!(extended.tail.head.value, "Alice");
}

#[test]
fn test_restricto_head() {
    let record = two(name_field("Alice"), age_field(30));
    let (name, rest): (&str, _) = Restricto::<Name, Here>::restrict(record);
    assert_eq!(name, "Alice");
    assert_eq!(rest.head.value, 30);
}

#[test]
fn test_restricto_tail() {
    let record = two(age_field(30), name_field("Alice"));
    let (name, rest): (&str, _) = Restricto::<Name, There<Here>>::restrict(record);
    assert_eq!(name, "Alice");
    assert_eq!(rest.head.value, 30);
}

#[test]
fn test_confluo_empty() {
    let record = one(name_field("Alice"));
    let merged = record.merge(Nihil);
    assert_eq!(merged.head.value, "Alice");
}

#[test]
fn test_confluo_two_records() {
    let r1 = one(name_field("Alice"));
    let r2 = one(age_field(30));
    let merged = r1.merge(r2);
    assert_eq!(merged.head.value, "Alice");
    assert_eq!(merged.tail.head.value, 30);
}

#[test]
fn test_muto() {
    let record = one(age_field(30));
    let modified = Muto::<Age, i32, Here>::modify(record, |age| age + 1);
    assert_eq!(modified.head.value, 31);
}

#[test]
fn test_renomino() {
    let record = one(name_field("Alice"));
    let renamed: Coniunctio<Field<NewName, &str>, Nihil> =
        Renomino::<Name, NewName, Here>::rename(record, "new_name");
    assert_eq!(renamed.head.name, "new_name");
    assert_eq!(renamed.head.value, "Alice");
}

#[test]
fn test_get_field_mut_writes_only_that_field() {
    let mut record = two(age_field(30), name_field("Alice"));
    *HabetCampum::<Name, &str, There<Here>>::get_field_mut(&mut record) = "Bob";
    assert_eq!(record.tail.head.value, "Bob");
    assert_eq!(record.tail.head.name, "name");
    assert_eq!(record.head.value, 30);
}

#[test]
fn test_restrict_undoes_extend() {
    let record = one(name_field("Alice"));
    let extended = Extendo::<Age, i32>::extend(record, "age", 41);
    let (age, rest): (i32, _) = Restricto::<Age, Here>::restrict(extended);
    assert_eq!(age, 41);
    assert_eq!(rest, record);
}

#[test]
fn test_muto_keeps_name_and_other_fields() {
    let record = two(name_field("Alice"), age_field(30));
    let modified = Muto::<Age, i64, There<Here>>::modify(record, |age| (age as i64) * 2);
    assert_eq!(modified.tail.head.value, 60i64);
    assert_eq!(modified.tail.head.name, "age");
    assert_eq!(modified.head, name_field("Alice"));
}

#[test]
fn test_merge_keeps_order() {
    let merged = two(name_field("Alice"), age_field(1)).merge(one(age_field(2)));
    assert_eq!(merged.len(), 3);
    assert_eq!(merged.head.value, "Alice");
    assert_eq!(merged.tail.head.value, 1);
    assert_eq!(merged.tail.tail.head.value, 2);
    let from_empty = Nihil.merge(one(age_field(5)));
    assert_eq!(from_empty, one(age_field(5)));
}

// ---------------------------------------------------------------- ordo

#[test]
fn test_nihil_is_ordo() {
    assert_ordo::<Nihil>();
}

#[test]
fn test_coniunctio_is_ordo() {
    assert_ordo::<Coniunctio<(), Nihil>>();
}

#[test]
fn test_ordo_ops_numerus() {
    assert_eq!(<Nihil as OrdoOps>::NUMERUS, 0);
    assert_eq!(<Coniunctio<(), Nihil> as OrdoOps>::NUMERUS, 1);
    assert_eq!(<Coniunctio<(), Coniunctio<(), Nihil>> as OrdoOps>::NUMERUS, 2);
}

#[test]
fn test_bool_values() {
    assert!(Verum::VALUE);
    assert!(!Falsum::VALUE);
}

// ---------------------------------------------------------------- registrum

#[test]
fn test_registrum_new() {
    let record = Registrum::new();
    assert!(record.is_empty());
    assert_eq!(record.len(), 0);
}

#[test]
fn test_registrum_from_hlist() {
    let hlist = one(name_field("Alice"));
    let record = Registrum::from_hlist(hlist);
    assert!(!record.is_empty());
    assert_eq!(record.len(), 1);
}

#[test]
fn test_registrum_into_hlist() {
    let hlist = one(name_field("Alice"));
    let record = Registrum::from_hlist(hlist);
    let back = record.into_hlist();
    assert_eq!(back, hlist);
}

#[test]
fn test_registrum_extend() {
    let record = Registrum::new()
        .extend_field::<Name, _>("name", "Alice")
        .extend_field::<Age, _>("age", 30i32);

    assert_eq!(record.len(), 2);
}

#[test]
fn test_registrum_get() {
    let record = Registrum::from_hlist(two(name_field("Alice"), age_field(30)));

    let name: &&str = record.get::<Name, &str, Here>();
    assert_eq!(*name, "Alice");
}

#[test]
fn test_registrum_restrict() {
    let record = Registrum::from_hlist(two(name_field("Alice"), age_field(30)));

    let (name, rest): (&str, _) = record.restrict::<Name, Here>();
    assert_eq!(name, "Alice");
    assert_eq!(rest.len(), 1);
}

#[test]
fn test_registrum_merge() {
    let r1 = Registrum::from_hlist(one(name_field("Alice")));
    let r2 = Registrum::from_hlist(one(age_field(30)));

    let merged = r1.merge(r2);
    assert_eq!(merged.len(), 2);
}

#[test]
fn test_registrum_modify() {
    let record = Registrum::from_hlist(one(age_field(30)));
    let modified = record.modify::<Age, i32, Here, _>(|age| age + 1);

    let age: &i32 = modified.get::<Age, i32, Here>();
    assert_eq!(*age, 31);
}

#[test]
fn test_registrum_extend_and_get_by_position() {
    let person = Registrum::new()
        .extend_field::<Name, _>("name", "Alice")
        .extend_field::<Age, _>("age", 30);
    assert_eq!(*person.get::<Name, &str, There<Here>>(), "Alice");
    assert_eq!(*person.get::<Age, i32, Here>(), 30);
}

#[test]
fn test_registrum_get_mut_and_with() {
    let mut person = Registrum::from_hlist(two(name_field("Alice"), age_field(30)));
    *person.get_mut::<Age, i32, There<Here>>() += 5;
    assert_eq!(*person.get::<Age, i32, There<Here>>(), 35);
    assert_eq!(*person.get::<Name, &str, Here>(), "Alice");
    let len = person.with(|r| r.len());
    assert_eq!(len, 2);
}

#[test]
fn test_registrum_from_and_default() {
    let record: Registrum<Coniunctio<Field<Age, i32>, Nihil>> = Registrum::from(one(age_field(9)));
    assert_eq!(*record.as_hlist(), one(age_field(9)));
    let empty: Registrum<Nihil> = Registrum::default();
    assert!(empty.is_empty());
}

#[test]
fn test_registrum_debug() {
    let record = Registrum::new();
    let debug = format!("{record:?}");
    assert!(debug.contains("Registrum"));
}
