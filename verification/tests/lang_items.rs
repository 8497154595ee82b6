use task_rc::lang_items::{
    collect_language_items, Crate, CrateMetadata, DefId, Diagnostic, Item, LangItem,
    LanguageItemCollector, LanguageItems, Literal, MetaItem, Session, LANG_ITEM_COUNT, LOCAL_CRATE,
};

const NAMES: [&str; 43] = [
    "freeze",
    "copy",
    "send",
    "sized",
    "drop",
    "add",
    "sub",
    "mul",
    "div",
    "rem",
    "neg",
    "not",
    "bitxor",
    "bitand",
    "bitor",
    "shl",
    "shr",
    "index",
    "eq",
    "ord",
    "str_eq",
    "uniq_str_eq",
    "annihilate",
    "log_type",
    "fail_",
    "fail_bounds_check",
    "exchange_malloc",
    "vector_exchange_malloc",
    "closure_exchange_malloc",
    "exchange_free",
    "malloc",
    "free",
    "borrow_as_imm",
    "borrow_as_mut",
    "return_to_mut",
    "check_not_borrowed",
    "strdup_uniq",
    "record_borrow",
    "unrecord_borrow",
    "start",
    "ty_desc",
    "ty_visitor",
    "opaque",
];

fn lang(name: &str) -> MetaItem {
    MetaItem::NameValue(String::from("lang"), Literal::Str(String::from(name)))
}

fn session() -> Session {
    Session { cstore: Vec::new(), errors: Vec::new() }
}

fn complete_crate() -> Crate {
    let mut items = Vec::new();
    for (place, name) in NAMES.iter().enumerate() {
        items.push(Item { id: 100 + place as i64, attrs: vec![lang(name)] });
    }
    Crate { items }
}

#[test]
fn item_name_gives_each_name() {
    assert_eq!(LANG_ITEM_COUNT, 43);
    for (place, name) in NAMES.iter().enumerate() {
        assert_eq!(LanguageItems::item_name(place), *name);
    }
    assert_eq!(LanguageItems::item_name(0), "freeze");
    assert_eq!(LanguageItems::item_name(24), "fail_");
    assert_eq!(LanguageItems::item_name(42), "opaque");
}

#[test]
fn item_name_of_no_place() {
    assert_eq!(LanguageItems::item_name(43), "???");
    assert_eq!(LanguageItems::item_name(usize::MAX), "???");
}

#[test]
fn lang_item_places() {
    assert_eq!(LangItem::FreezeTraitLangItem.index(), 0);
    assert_eq!(LangItem::CopyTraitLangItem.index(), 1);
    assert_eq!(LangItem::SendTraitLangItem.index(), 2);
    assert_eq!(LangItem::SizedTraitLangItem.index(), 3);
    assert_eq!(LangItem::NotTraitLangItem.index(), 11);
    assert_eq!(LangItem::BitXorTraitLangItem.index(), 12);
    assert_eq!(LangItem::OrdTraitLangItem.index(), 19);
    assert_eq!(LangItem::StartFnLangItem.index(), 39);
    assert_eq!(LangItem::OpaqueStructLangItem.index(), 42);
}

#[test]
fn item_ref_finds_the_place_of_each_name() {
    for (place, name) in NAMES.iter().enumerate() {
        assert_eq!(LanguageItemCollector::item_ref(name), Some(place));
    }
}

#[test]
fn item_ref_of_other_names() {
    assert_eq!(LanguageItemCollector::item_ref(""), None);
    assert_eq!(LanguageItemCollector::item_ref("???"), None);
    assert_eq!(LanguageItemCollector::item_ref("fail"), None);
    assert_eq!(LanguageItemCollector::item_ref("Freeze"), None);
    assert_eq!(LanguageItemCollector::item_ref("freeze "), None);
}

#[test]
fn messages() {
    assert_eq!(Diagnostic::DuplicateEntry(0).message(), "duplicate entry for `freeze`");
    assert_eq!(Diagnostic::DuplicateEntry(24).message(), "duplicate entry for `fail_`");
    assert_eq!(Diagnostic::NoItemFound(2).message(), "no item found for `send`");
    assert_eq!(Diagnostic::NoItemFound(42).message(), "no item found for `opaque`");
    assert_eq!(Diagnostic::NoItemFound(43).message(), "no item found for `???`");
}

#[test]
fn empty_crate_misses_every_item() {
    let krate = Crate { items: Vec::new() };
    let errors = collect_language_items(&krate, session()).err().unwrap();
    assert_eq!(errors.len(), 43);
    for place in 0..43 {
        assert_eq!(errors[place], Diagnostic::NoItemFound(place));
    }
}

#[test]
fn complete_crate_fills_the_registry() {
    let krate = complete_crate();
    let items = collect_language_items(&krate, session()).ok().unwrap();
    assert_eq!(items.freeze_trait(), DefId { krate: LOCAL_CRATE, node: 100 });
    assert_eq!(items.copy_trait(), DefId { krate: LOCAL_CRATE, node: 101 });
    assert_eq!(items.send_trait(), DefId { krate: LOCAL_CRATE, node: 102 });
    assert_eq!(items.sized_trait(), DefId { krate: LOCAL_CRATE, node: 103 });
    assert_eq!(items.drop_trait(), DefId { krate: LOCAL_CRATE, node: 104 });
    assert_eq!(items.add_trait(), DefId { krate: LOCAL_CRATE, node: 105 });
    assert_eq!(items.sub_trait(), DefId { krate: LOCAL_CRATE, node: 106 });
    assert_eq!(items.mul_trait(), DefId { krate: LOCAL_CRATE, node: 107 });
    assert_eq!(items.div_trait(), DefId { krate: LOCAL_CRATE, node: 108 });
    assert_eq!(items.rem_trait(), DefId { krate: LOCAL_CRATE, node: 109 });
    assert_eq!(items.neg_trait(), DefId { krate: LOCAL_CRATE, node: 110 });
    assert_eq!(items.not_trait(), DefId { krate: LOCAL_CRATE, node: 111 });
    assert_eq!(items.bitxor_trait(), DefId { krate: LOCAL_CRATE, node: 112 });
    assert_eq!(items.bitand_trait(), DefId { krate: LOCAL_CRATE, node: 113 });
    assert_eq!(items.bitor_trait(), DefId { krate: LOCAL_CRATE, node: 114 });
    assert_eq!(items.shl_trait(), DefId { krate: LOCAL_CRATE, node: 115 });
    assert_eq!(items.shr_trait(), DefId { krate: LOCAL_CRATE, node: 116 });
    assert_eq!(items.index_trait(), DefId { krate: LOCAL_CRATE, node: 117 });
    assert_eq!(items.eq_trait(), DefId { krate: LOCAL_CRATE, node: 118 });
    assert_eq!(items.ord_trait(), DefId { krate: LOCAL_CRATE, node: 119 });
    assert_eq!(items.str_eq_fn(), DefId { krate: LOCAL_CRATE, node: 120 });
    assert_eq!(items.uniq_str_eq_fn(), DefId { krate: LOCAL_CRATE, node: 121 });
    assert_eq!(items.annihilate_fn(), DefId { krate: LOCAL_CRATE, node: 122 });
    assert_eq!(items.log_type_fn(), DefId { krate: LOCAL_CRATE, node: 123 });
    assert_eq!(items.fail_fn(), DefId { krate: LOCAL_CRATE, node: 124 });
    assert_eq!(items.fail_bounds_check_fn(), DefId { krate: LOCAL_CRATE, node: 125 });
    assert_eq!(items.exchange_malloc_fn(), DefId { krate: LOCAL_CRATE, node: 126 });
    assert_eq!(items.vector_exchange_malloc_fn(), DefId { krate: LOCAL_CRATE, node: 127 });
    assert_eq!(items.closure_exchange_malloc_fn(), DefId { krate: LOCAL_CRATE, node: 128 });
    assert_eq!(items.exchange_free_fn(), DefId { krate: LOCAL_CRATE, node: 129 });
    assert_eq!(items.malloc_fn(), DefId { krate: LOCAL_CRATE, node: 130 });
    assert_eq!(items.free_fn(), DefId { krate: LOCAL_CRATE, node: 131 });
    assert_eq!(items.borrow_as_imm_fn(), DefId { krate: LOCAL_CRATE, node: 132 });
    assert_eq!(items.borrow_as_mut_fn(), DefId { krate: LOCAL_CRATE, node: 133 });
    assert_eq!(items.return_to_mut_fn(), DefId { krate: LOCAL_CRATE, node: 134 });
    assert_eq!(items.check_not_borrowed_fn(), DefId { krate: LOCAL_CRATE, node: 135 });
    assert_eq!(items.strdup_uniq_fn(), DefId { krate: LOCAL_CRATE, node: 136 });
    assert_eq!(items.record_borrow_fn(), DefId { krate: LOCAL_CRATE, node: 137 });
    assert_eq!(items.unrecord_borrow_fn(), DefId { krate: LOCAL_CRATE, node: 138 });
    assert_eq!(items.start_fn(), DefId { krate: LOCAL_CRATE, node: 139 });
    assert_eq!(items.ty_desc(), DefId { krate: LOCAL_CRATE, node: 140 });
    assert_eq!(items.ty_visitor(), DefId { krate: LOCAL_CRATE, node: 141 });
    assert_eq!(items.opaque(), DefId { krate: LOCAL_CRATE, node: 142 });
}

#[test]
fn each_item_visits_the_places_in_order() {
    let krate = complete_crate();
    let items = collect_language_items(&krate, session()).ok().unwrap();
    let seen = std::cell::RefCell::new(Vec::new());
    let all = items.each_item(|id, place| {
        seen.borrow_mut().push((id.node, place));
        true
    });
    assert!(all);
    let seen = seen.into_inner();
    assert_eq!(seen.len(), 43);
    for place in 0..43 {
        assert_eq!(seen[place], (100 + place as i64, place));
    }
}

#[test]
fn each_item_stops_at_the_first_refusal() {
    let krate = complete_crate();
    let items = collect_language_items(&krate, session()).ok().unwrap();
    let calls = std::cell::Cell::new(0);
    let all = items.each_item(|_, place| {
        calls.set(calls.get() + 1);
        place < 5
    });
    assert!(!all);
    assert_eq!(calls.get(), 6);
}

#[test]
fn only_lang_attributes_with_a_known_name_count() {
    let krate = Crate {
        items: vec![
            Item {
                id: 7,
                attrs: vec![
                    MetaItem::Word(String::from("lang")),
                    MetaItem::List(String::from("lang")),
                    MetaItem::NameValue(String::from("lang"), Literal::Other),
                    MetaItem::NameValue(String::from("doc"), Literal::Str(String::from("send"))),
                    lang("no_such_item"),
                    lang("send"),
                ],
            },
        ],
    };
    let mut collector = LanguageItemCollector::new(&krate, session());
    collector.collect_local_language_items();
    let (items, after) = collector.finish();
    assert!(after.errors.is_empty());
    assert_eq!(items.get(LangItem::SendTraitLangItem), Some(DefId { krate: LOCAL_CRATE, node: 7 }));
    assert_eq!(items.get(LangItem::FreezeTraitLangItem), None);
    assert_eq!(items.get(LangItem::OpaqueStructLangItem), None);
    let errors = collect_language_items(&krate, session()).err().unwrap();
    assert_eq!(errors.len(), 42);
    assert!(!errors.contains(&Diagnostic::NoItemFound(2)));
    assert!(errors.contains(&Diagnostic::NoItemFound(1)));
    assert!(errors.contains(&Diagnostic::NoItemFound(3)));
}

#[test]
fn a_second_definition_is_a_duplicate() {
    let mut krate = complete_crate();
    krate.items.push(Item { id: 999, attrs: vec![lang("drop")] });
    let errors = collect_language_items(&krate, session()).err().unwrap();
    assert_eq!(errors, vec![Diagnostic::DuplicateEntry(4)]);
    assert_eq!(errors[0].message(), "duplicate entry for `drop`");
}

#[test]
fn the_same_definition_twice_is_no_duplicate() {
    let mut krate = complete_crate();
    krate.items[4].attrs.push(lang("drop"));
    assert!(collect_language_items(&krate, session()).is_ok());
}

#[test]
fn one_item_may_define_several_language_items() {
    let krate = Crate { items: vec![Item { id: 5, attrs: vec![lang("add"), lang("sub")] }] };
    let errors = collect_language_items(&krate, session()).err().unwrap();
    assert_eq!(errors.len(), 41);
    assert!(!errors.contains(&Diagnostic::NoItemFound(5)));
    assert!(!errors.contains(&Diagnostic::NoItemFound(6)));
}

#[test]
fn external_crates_define_language_items() {
    let krate = Crate { items: Vec::new() };
    let mut entries = Vec::new();
    for place in 0..43usize {
        entries.push((1000 + place as i64, place));
    }
    let session = Session {
        cstore: vec![CrateMetadata { number: 3, lang_items: entries }],
        errors: Vec::new(),
    };
    let items = collect_language_items(&krate, session).ok().unwrap();
    assert_eq!(items.freeze_trait(), DefId { krate: 3, node: 1000 });
    assert_eq!(items.send_trait(), DefId { krate: 3, node: 1002 });
    assert_eq!(items.opaque(), DefId { krate: 3, node: 1042 });
}

#[test]
fn an_external_definition_replaces_a_local_one_and_is_a_duplicate() {
    let krate = complete_crate();
    let session = Session {
        cstore: vec![
            CrateMetadata { number: 1, lang_items: vec![(11, 0)] },
            CrateMetadata { number: 2, lang_items: vec![(22, 0), (23, 42)] },
        ],
        errors: Vec::new(),
    };
    let errors = collect_language_items(&krate, session).err().unwrap();
    assert_eq!(
        errors,
        vec![
            Diagnostic::DuplicateEntry(0),
            Diagnostic::DuplicateEntry(0),
            Diagnostic::DuplicateEntry(42),
        ]
    );
}

#[test]
fn earlier_complaints_are_kept() {
    let krate = complete_crate();
    let session = Session { cstore: Vec::new(), errors: vec![Diagnostic::NoItemFound(9)] };
    let errors = collect_language_items(&krate, session).err().unwrap();
    assert_eq!(errors, vec![Diagnostic::NoItemFound(9)]);
}

#[test]
fn collect_item_keeps_the_last_definition() {
    let krate = Crate { items: Vec::new() };
    let mut entries = Vec::new();
    for place in 0..43usize {
        entries.push((place as i64, place));
    }
    entries.push((77, 10));
    let session = Session {
        cstore: vec![CrateMetadata { number: 8, lang_items: entries }],
        errors: Vec::new(),
    };
    let mut collector = LanguageItemCollector::new(&krate, session);
    collector.collect();
    collector.collect_item(11, DefId { krate: 8, node: 11 });
    collector.match_and_collect_item(DefId { krate: 0, node: 1 }, "lang", "neg");
    collector.match_and_collect_item(DefId { krate: 0, node: 2 }, "language", "not");
    collector.match_and_collect_meta_item(DefId { krate: 0, node: 3 }, &lang("unknown"));
    collector.match_and_collect_meta_item(DefId { krate: 0, node: 4 }, &lang("shl"));
    collector.check_completeness();
    let (items, after) = collector.finish();
    assert_eq!(
        after.errors,
        vec![
            Diagnostic::DuplicateEntry(10),
            Diagnostic::DuplicateEntry(10),
            Diagnostic::DuplicateEntry(15),
        ]
    );
    assert_eq!(items.neg_trait(), DefId { krate: 0, node: 1 });
    assert_eq!(items.not_trait(), DefId { krate: 8, node: 11 });
    assert_eq!(items.shl_trait(), DefId { krate: 0, node: 4 });
    assert_eq!(items.rem_trait(), DefId { krate: 8, node: 9 });
}

#[test]
fn a_new_collector_has_found_nothing() {
    let krate = complete_crate();
    let collector = LanguageItemCollector::new(&krate, session());
    let (items, after) = collector.finish();
    assert!(after.errors.is_empty());
    assert_eq!(items.get(LangItem::FreezeTraitLangItem), None);
    assert_eq!(items.get(LangItem::OpaqueStructLangItem), None);
    let empty = LanguageItems::new();
    assert_eq!(empty.get(LangItem::SendTraitLangItem), None);
}
