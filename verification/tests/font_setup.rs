use app_common::font_setup::{FontChoice, FontFamilyId, FontSetup};

fn fonts_of<'a>(setup: &'a FontSetup, family: &FontFamilyId) -> Option<&'a Vec<String>> {
    setup.families.iter().find(|e| e.family.same_family(family)).map(|e| &e.fonts)
}

#[test]
fn new_setup_is_empty() {
    let setup = FontSetup::new();
    assert!(setup.font_names.is_empty());
    assert!(setup.families.is_empty());
}

#[test]
fn add_font_creates_families_and_appends() {
    let mut setup = FontSetup::new();
    setup.add_font("A".to_string(), &vec![FontFamilyId::Proportional, FontFamilyId::Monospace]);
    setup.add_font("B".to_string(), &vec![FontFamilyId::Monospace]);
    assert_eq!(setup.font_names, vec!["A".to_string(), "B".to_string()]);
    assert_eq!(setup.families.len(), 2);
    assert_eq!(fonts_of(&setup, &FontFamilyId::Proportional).unwrap(), &vec!["A".to_string()]);
    assert_eq!(
        fonts_of(&setup, &FontFamilyId::Monospace).unwrap(),
        &vec!["A".to_string(), "B".to_string()]
    );
}

#[test]
fn add_font_twice_keeps_one_name() {
    let mut setup = FontSetup::new();
    setup.add_font("A".to_string(), &vec![]);
    setup.add_font("A".to_string(), &vec![FontFamilyId::Name("ui".to_string())]);
    assert_eq!(setup.font_names, vec!["A".to_string()]);
    assert_eq!(fonts_of(&setup, &FontFamilyId::Name("ui".to_string())).unwrap(), &vec!["A".to_string()]);
    assert!(fonts_of(&setup, &FontFamilyId::Name("other".to_string())).is_none());
}

#[test]
fn family_listed_twice_gets_the_font_twice() {
    let mut setup = FontSetup::new();
    setup.add_font("A".to_string(), &vec![FontFamilyId::Monospace, FontFamilyId::Monospace]);
    assert_eq!(
        fonts_of(&setup, &FontFamilyId::Monospace).unwrap(),
        &vec!["A".to_string(), "A".to_string()]
    );
    assert_eq!(setup.families.len(), 1);
}

#[test]
fn add_fonts_adds_each_choice_in_turn() {
    let mut setup = FontSetup::new();
    let choices = vec![
        FontChoice { name: "Yu Gothic UI".to_string(), families: vec![FontFamilyId::Proportional] },
        FontChoice { name: "Mono".to_string(), families: vec![FontFamilyId::Proportional, FontFamilyId::Monospace] },
    ];
    setup.add_fonts(&choices);
    assert_eq!(
        fonts_of(&setup, &FontFamilyId::Proportional).unwrap(),
        &vec!["Yu Gothic UI".to_string(), "Mono".to_string()]
    );
    assert_eq!(fonts_of(&setup, &FontFamilyId::Monospace).unwrap(), &vec!["Mono".to_string()]);
}

#[test]
fn families_compare_by_kind_and_name() {
    assert!(FontFamilyId::Proportional.same_family(&FontFamilyId::Proportional));
    assert!(!FontFamilyId::Proportional.same_family(&FontFamilyId::Monospace));
    assert!(FontFamilyId::Name("x".to_string()).same_family(&FontFamilyId::Name("x".to_string())));
    assert!(!FontFamilyId::Name("x".to_string()).same_family(&FontFamilyId::Name("y".to_string())));
    assert!(matches!(FontFamilyId::Name("x".to_string()).duplicate(), FontFamilyId::Name(n) if n == "x"));
}
