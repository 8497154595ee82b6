//! The registry of language items.
//!
//! Language items are items that represent concepts intrinsic to the language
//! itself: the traits that stand for kinds (`Freeze`, `Copy`, `Send`), the
//! traits that stand for operators (`Add`, `Sub`, `Index`), and functions that
//! compiled code calls without naming them. An item is registered under a
//! name by an attribute `lang = "name"`. The registry holds one item for each
//! name, and the collector fills it from the items of a crate and from the
//! crates that it links to; an item registered twice and a name left without
//! an item are errors.

use vstd::prelude::*;
use vstd::string::StringExecFns;

verus! {

/// The language items, in the order of their places in the registry.
#[derive(Clone, Copy, PartialEq, Eq, Structural, Debug)]
pub enum LangItem {
    FreezeTraitLangItem,
    CopyTraitLangItem,
    SendTraitLangItem,
    SizedTraitLangItem,
    DropTraitLangItem,
    AddTraitLangItem,
    SubTraitLangItem,
    MulTraitLangItem,
    DivTraitLangItem,
    RemTraitLangItem,
    NegTraitLangItem,
    NotTraitLangItem,
    BitXorTraitLangItem,
    BitAndTraitLangItem,
    BitOrTraitLangItem,
    ShlTraitLangItem,
    ShrTraitLangItem,
    IndexTraitLangItem,
    EqTraitLangItem,
    OrdTraitLangItem,
    StrEqFnLangItem,
    UniqStrEqFnLangItem,
    AnnihilateFnLangItem,
    LogTypeFnLangItem,
    FailFnLangItem,
    FailBoundsCheckFnLangItem,
    ExchangeMallocFnLangItem,
    VectorExchangeMallocFnLangItem,
    ClosureExchangeMallocFnLangItem,
    ExchangeFreeFnLangItem,
    MallocFnLangItem,
    FreeFnLangItem,
    BorrowAsImmFnLangItem,
    BorrowAsMutFnLangItem,
    ReturnToMutFnLangItem,
    CheckNotBorrowedFnLangItem,
    StrDupUniqFnLangItem,
    RecordBorrowFnLangItem,
    UnrecordBorrowFnLangItem,
    StartFnLangItem,
    TyDescStructLangItem,
    TyVisitorTraitLangItem,
    OpaqueStructLangItem,
}

/// The number of language items.
pub const LANG_ITEM_COUNT: usize = 43;

impl LangItem {
    /// The place of the item in the registry.
    pub open spec fn place(self) -> int {
        match self {
            LangItem::FreezeTraitLangItem => 0,
            LangItem::CopyTraitLangItem => 1,
            LangItem::SendTraitLangItem => 2,
            LangItem::SizedTraitLangItem => 3,
            LangItem::DropTraitLangItem => 4,
            LangItem::AddTraitLangItem => 5,
            LangItem::SubTraitLangItem => 6,
            LangItem::MulTraitLangItem => 7,
            LangItem::DivTraitLangItem => 8,
            LangItem::RemTraitLangItem => 9,
            LangItem::NegTraitLangItem => 10,
            LangItem::NotTraitLangItem => 11,
            LangItem::BitXorTraitLangItem => 12,
            LangItem::BitAndTraitLangItem => 13,
            LangItem::BitOrTraitLangItem => 14,
            LangItem::ShlTraitLangItem => 15,
            LangItem::ShrTraitLangItem => 16,
            LangItem::IndexTraitLangItem => 17,
            LangItem::EqTraitLangItem => 18,
            LangItem::OrdTraitLangItem => 19,
            LangItem::StrEqFnLangItem => 20,
            LangItem::UniqStrEqFnLangItem => 21,
            LangItem::AnnihilateFnLangItem => 22,
            LangItem::LogTypeFnLangItem => 23,
            LangItem::FailFnLangItem => 24,
            LangItem::FailBoundsCheckFnLangItem => 25,
            LangItem::ExchangeMallocFnLangItem => 26,
            LangItem::VectorExchangeMallocFnLangItem => 27,
            LangItem::ClosureExchangeMallocFnLangItem => 28,
            LangItem::ExchangeFreeFnLangItem => 29,
            LangItem::MallocFnLangItem => 30,
            LangItem::FreeFnLangItem => 31,
            LangItem::BorrowAsImmFnLangItem => 32,
            LangItem::BorrowAsMutFnLangItem => 33,
            LangItem::ReturnToMutFnLangItem => 34,
            LangItem::CheckNotBorrowedFnLangItem => 35,
            LangItem::StrDupUniqFnLangItem => 36,
            LangItem::RecordBorrowFnLangItem => 37,
            LangItem::UnrecordBorrowFnLangItem => 38,
            LangItem::StartFnLangItem => 39,
            LangItem::TyDescStructLangItem => 40,
            LangItem::TyVisitorTraitLangItem => 41,
            LangItem::OpaqueStructLangItem => 42,
        }
    }

    /// The place of the item in the registry.
    pub fn index(self) -> (index: usize)
        ensures
            index == self.place(),
            index < LANG_ITEM_COUNT,
    {
        match self {
            LangItem::FreezeTraitLangItem => 0,
            LangItem::CopyTraitLangItem => 1,
            LangItem::SendTraitLangItem => 2,
            LangItem::SizedTraitLangItem => 3,
            LangItem::DropTraitLangItem => 4,
            LangItem::AddTraitLangItem => 5,
            LangItem::SubTraitLangItem => 6,
            LangItem::MulTraitLangItem => 7,
            LangItem::DivTraitLangItem => 8,
            LangItem::RemTraitLangItem => 9,
            LangItem::NegTraitLangItem => 10,
            LangItem::NotTraitLangItem => 11,
            LangItem::BitXorTraitLangItem => 12,
            LangItem::BitAndTraitLangItem => 13,
            LangItem::BitOrTraitLangItem => 14,
            LangItem::ShlTraitLangItem => 15,
            LangItem::ShrTraitLangItem => 16,
            LangItem::IndexTraitLangItem => 17,
            LangItem::EqTraitLangItem => 18,
            LangItem::OrdTraitLangItem => 19,
            LangItem::StrEqFnLangItem => 20,
            LangItem::UniqStrEqFnLangItem => 21,
            LangItem::AnnihilateFnLangItem => 22,
            LangItem::LogTypeFnLangItem => 23,
            LangItem::FailFnLangItem => 24,
            LangItem::FailBoundsCheckFnLangItem => 25,
            LangItem::ExchangeMallocFnLangItem => 26,
            LangItem::VectorExchangeMallocFnLangItem => 27,
            LangItem::ClosureExchangeMallocFnLangItem => 28,
            LangItem::ExchangeFreeFnLangItem => 29,
            LangItem::MallocFnLangItem => 30,
            LangItem::FreeFnLangItem => 31,
            LangItem::BorrowAsImmFnLangItem => 32,
            LangItem::BorrowAsMutFnLangItem => 33,
            LangItem::ReturnToMutFnLangItem => 34,
            LangItem::CheckNotBorrowedFnLangItem => 35,
            LangItem::StrDupUniqFnLangItem => 36,
            LangItem::RecordBorrowFnLangItem => 37,
            LangItem::UnrecordBorrowFnLangItem => 38,
            LangItem::StartFnLangItem => 39,
            LangItem::TyDescStructLangItem => 40,
            LangItem::TyVisitorTraitLangItem => 41,
            LangItem::OpaqueStructLangItem => 42,
        }
    }
}

/// The name under which the item at `index` is registered, and `???` where no
/// item has that place.
pub open spec fn name_of(index: int) -> Seq<char> {
    if index == 0 {
        "freeze"@
    } else if index == 1 {
        "copy"@
    } else if index == 2 {
        "send"@
    } else if index == 3 {
        "sized"@
    } else if index == 4 {
        "drop"@
    } else if index == 5 {
        "add"@
    } else if index == 6 {
        "sub"@
    } else if index == 7 {
        "mul"@
    } else if index == 8 {
        "div"@
    } else if index == 9 {
        "rem"@
    } else if index == 10 {
        "neg"@
    } else if index == 11 {
        "not"@
    } else if index == 12 {
        "bitxor"@
    } else if index == 13 {
        "bitand"@
    } else if index == 14 {
        "bitor"@
    } else if index == 15 {
        "shl"@
    } else if index == 16 {
        "shr"@
    } else if index == 17 {
        "index"@
    } else if index == 18 {
        "eq"@
    } else if index == 19 {
        "ord"@
    } else if index == 20 {
        "str_eq"@
    } else if index == 21 {
        "uniq_str_eq"@
    } else if index == 22 {
        "annihilate"@
    } else if index == 23 {
        "log_type"@
    } else if index == 24 {
        "fail_"@
    } else if index == 25 {
        "fail_bounds_check"@
    } else if index == 26 {
        "exchange_malloc"@
    } else if index == 27 {
        "vector_exchange_malloc"@
    } else if index == 28 {
        "closure_exchange_malloc"@
    } else if index == 29 {
        "exchange_free"@
    } else if index == 30 {
        "malloc"@
    } else if index == 31 {
        "free"@
    } else if index == 32 {
        "borrow_as_imm"@
    } else if index == 33 {
        "borrow_as_mut"@
    } else if index == 34 {
        "return_to_mut"@
    } else if index == 35 {
        "check_not_borrowed"@
    } else if index == 36 {
        "strdup_uniq"@
    } else if index == 37 {
        "record_borrow"@
    } else if index == 38 {
        "unrecord_borrow"@
    } else if index == 39 {
        "start"@
    } else if index == 40 {
        "ty_desc"@
    } else if index == 41 {
        "ty_visitor"@
    } else if index == 42 {
        "opaque"@
    } else {
        "???"@
    }
}

/// What names an item: the crate it is defined in, and its node in that crate.
#[derive(Clone, Copy, PartialEq, Eq, Structural, Debug)]
pub struct DefId {
    pub krate: i64,
    pub node: i64,
}

/// The crate that is being compiled.
pub const LOCAL_CRATE: i64 = 0;

/// The registry: for each language item, the definition that was found for it.
pub struct LanguageItems {
    items: Vec<Option<DefId>>,
}

impl View for LanguageItems {
    type V = Seq<Option<DefId>>;

    closed spec fn view(&self) -> Seq<Option<DefId>> {
        self.items@
    }
}

impl LanguageItems {
    /// The registry has a place for each language item.
    pub open spec fn wf(&self) -> bool {
        self@.len() == LANG_ITEM_COUNT
    }

    /// What the registry holds for `item`.
    pub open spec fn entry(&self, item: LangItem) -> Option<DefId> {
        self@[item.place()]
    }

    /// A registry in which no item is defined.
    pub fn new() -> (items: LanguageItems)
        ensures
            items.wf(),
            forall|i: int| 0 <= i < LANG_ITEM_COUNT ==> items@[i] is None,
    {
        let mut items: Vec<Option<DefId>> = Vec::new();
        while items.len() < LANG_ITEM_COUNT
            invariant
                items@.len() <= LANG_ITEM_COUNT,
                forall|i: int| 0 <= i < items@.len() ==> items@[i] is None,
            decreases LANG_ITEM_COUNT - items@.len(),
        {
            items.push(None);
        }
        LanguageItems { items }
    }

    /// Calls `f` with each definition and its place, in the order of the
    /// places, until `f` returns false. Returns whether `f` never did.
    pub fn each_item<F: Fn(DefId, usize) -> bool>(&self, f: F) -> (all: bool)
        requires
            self.wf(),
            forall|i: int| 0 <= i < LANG_ITEM_COUNT ==> self@[i] is Some,
            forall|i: int|
                0 <= i < LANG_ITEM_COUNT ==> f.requires((#[trigger] self@[i]->0, i as usize)),
        ensures
            all ==> forall|i: int|
                0 <= i < LANG_ITEM_COUNT ==> f.ensures((#[trigger] self@[i]->0, i as usize), true),
            !all ==> exists|k: int|
                0 <= k < LANG_ITEM_COUNT && f.ensures((#[trigger] self@[k]->0, k as usize), false)
                    && forall|i: int|
                    0 <= i < k ==> f.ensures((#[trigger] self@[i]->0, i as usize), true),
    {
        let mut i: usize = 0;
        while i < LANG_ITEM_COUNT
            invariant
                self.wf(),
                i <= LANG_ITEM_COUNT,
                forall|j: int| 0 <= j < LANG_ITEM_COUNT ==> self@[j] is Some,
                forall|j: int|
                    0 <= j < LANG_ITEM_COUNT ==> f.requires((#[trigger] self@[j]->0, j as usize)),
                forall|j: int| 0 <= j < i ==> f.ensures((#[trigger] self@[j]->0, j as usize), true),
            decreases LANG_ITEM_COUNT - i,
        {
            let item = self.items[i].unwrap();
            if !f(item, i) {
                return false;
            }
            i += 1;
        }
        true
    }

    /// The name under which the item at `index` is registered.
    pub fn item_name(index: usize) -> (name: &'static str)
        ensures
            name@ == name_of(index as int),
    {
        match index {
            0 => "freeze",
            1 => "copy",
            2 => "send",
            3 => "sized",
            4 => "drop",
            5 => "add",
            6 => "sub",
            7 => "mul",
            8 => "div",
            9 => "rem",
            10 => "neg",
            11 => "not",
            12 => "bitxor",
            13 => "bitand",
            14 => "bitor",
            15 => "shl",
            16 => "shr",
            17 => "index",
            18 => "eq",
            19 => "ord",
            20 => "str_eq",
            21 => "uniq_str_eq",
            22 => "annihilate",
            23 => "log_type",
            24 => "fail_",
            25 => "fail_bounds_check",
            26 => "exchange_malloc",
            27 => "vector_exchange_malloc",
            28 => "closure_exchange_malloc",
            29 => "exchange_free",
            30 => "malloc",
            31 => "free",
            32 => "borrow_as_imm",
            33 => "borrow_as_mut",
            34 => "return_to_mut",
            35 => "check_not_borrowed",
            36 => "strdup_uniq",
            37 => "record_borrow",
            38 => "unrecord_borrow",
            39 => "start",
            40 => "ty_desc",
            41 => "ty_visitor",
            42 => "opaque",
            _ => "???",
        }
    }

    /// The definition that was found for `item`, if one was.
    pub fn get(&self, item: LangItem) -> (id: Option<DefId>)
        requires
            self.wf(),
        ensures
            id == self.entry(item),
    {
        self.items[item.index()]
    }

    fn item(&self, item: LangItem) -> (id: DefId)
        requires
            self.wf(),
            self.entry(item) is Some,
        ensures
            Some(id) == self.entry(item),
    {
        self.items[item.index()].unwrap()
    }

    /// The definition that was found for `freeze`.
    pub fn freeze_trait(&self) -> (id: DefId)
        requires
            self.wf(),
            self.entry(LangItem::FreezeTraitLangItem) is Some,
        ensures
            Some(id) == self.entry(LangItem::FreezeTraitLangItem),
    {
        self.item(LangItem::FreezeTraitLangItem)
    }

    /// The definition that was found for `copy`.
    pub fn copy_trait(&self) -> (id: DefId)
        requires
            self.wf(),
            self.entry(LangItem::CopyTraitLangItem) is Some,
        ensures
            Some(id) == self.entry(LangItem::CopyTraitLangItem),
    {
        self.item(LangItem::CopyTraitLangItem)
    }

    /// The definition that was found for `send`.
    pub fn send_trait(&self) -> (id: DefId)
        requires
            self.wf(),
            self.entry(LangItem::SendTraitLangItem) is Some,
        ensures
            Some(id) == self.entry(LangItem::SendTraitLangItem),
    {
        self.item(LangItem::SendTraitLangItem)
    }

    /// The definition that was found for `sized`.
    pub fn sized_trait(&self) -> (id: DefId)
        requires
            self.wf(),
            self.entry(LangItem::SizedTraitLangItem) is Some,
        ensures
            Some(id) == self.entry(LangItem::SizedTraitLangItem),
    {
        self.item(LangItem::SizedTraitLangItem)
    }

    /// The definition that was found for `drop`.
    pub fn drop_trait(&self) -> (id: DefId)
        requires
            self.wf(),
            self.entry(LangItem::DropTraitLangItem) is Some,
        ensures
            Some(id) == self.entry(LangItem::DropTraitLangItem),
    {
        self.item(LangItem::DropTraitLangItem)
    }

    /// The definition that was found for `add`.
    pub fn add_trait(&self) -> (id: DefId)
        requires
            self.wf(),
            self.entry(LangItem::AddTraitLangItem) is Some,
        ensures
            Some(id) == self.entry(LangItem::AddTraitLangItem),
    {
        self.item(LangItem::AddTraitLangItem)
    }

    /// The definition that was found for `sub`.
    pub fn sub_trait(&self) -> (id: DefId)
        requires
            self.wf(),
            self.entry(LangItem::SubTraitLangItem) is Some,
        ensures
            Some(id) == self.entry(LangItem::SubTraitLangItem),
    {
        self.item(LangItem::SubTraitLangItem)
    }

    /// The definition that was found for `mul`.
    pub fn mul_trait(&self) -> (id: DefId)
        requires
            self.wf(),
            self.entry(LangItem::MulTraitLangItem) is Some,
        ensures
            Some(id) == self.entry(LangItem::MulTraitLangItem),
    {
        self.item(LangItem::MulTraitLangItem)
    }

    /// The definition that was found for `div`.
    pub fn div_trait(&self) -> (id: DefId)
        requires
            self.wf(),
            self.entry(LangItem::DivTraitLangItem) is Some,
        ensures
            Some(id) == self.entry(LangItem::DivTraitLangItem),
    {
        self.item(LangItem::DivTraitLangItem)
    }

    /// The definition that was found for `rem`.
    pub fn rem_trait(&self) -> (id: DefId)
        requires
            self.wf(),
            self.entry(LangItem::RemTraitLangItem) is Some,
        ensures
            Some(id) == self.entry(LangItem::RemTraitLangItem),
    {
        self.item(LangItem::RemTraitLangItem)
    }

    /// The definition that was found for `neg`.
    pub fn neg_trait(&self) -> (id: DefId)
        requires
            self.wf(),
            self.entry(LangItem::NegTraitLangItem) is Some,
        ensures
            Some(id) == self.entry(LangItem::NegTraitLangItem),
    {
        self.item(LangItem::NegTraitLangItem)
    }

    /// The definition that was found for `not`.
    pub fn not_trait(&self) -> (id: DefId)
        requires
            self.wf(),
            self.entry(LangItem::NotTraitLangItem) is Some,
        ensures
            Some(id) == self.entry(LangItem::NotTraitLangItem),
    {
        self.item(LangItem::NotTraitLangItem)
    }

    /// The definition that was found for `bitxor`.
    pub fn bitxor_trait(&self) -> (id: DefId)
        requires
            self.wf(),
            self.entry(LangItem::BitXorTraitLangItem) is Some,
        ensures
            Some(id) == self.entry(LangItem::BitXorTraitLangItem),
    {
        self.item(LangItem::BitXorTraitLangItem)
    }

    /// The definition that was found for `bitand`.
    pub fn bitand_trait(&self) -> (id: DefId)
        requires
            self.wf(),
            self.entry(LangItem::BitAndTraitLangItem) is Some,
        ensures
            Some(id) == self.entry(LangItem::BitAndTraitLangItem),
    {
        self.item(LangItem::BitAndTraitLangItem)
    }

    /// The definition that was found for `bitor`.
    pub fn bitor_trait(&self) -> (id: DefId)
        requires
            self.wf(),
            self.entry(LangItem::BitOrTraitLangItem) is Some,
        ensures
            Some(id) == self.entry(LangItem::BitOrTraitLangItem),
    {
        self.item(LangItem::BitOrTraitLangItem)
    }

    /// The definition that was found for `shl`.
    pub fn shl_trait(&self) -> (id: DefId)
        requires
            self.wf(),
            self.entry(LangItem::ShlTraitLangItem) is Some,
        ensures
            Some(id) == self.entry(LangItem::ShlTraitLangItem),
    {
        self.item(LangItem::ShlTraitLangItem)
    }

    /// The definition that was found for `shr`.
    pub fn shr_trait(&self) -> (id: DefId)
        requires
            self.wf(),
            self.entry(LangItem::ShrTraitLangItem) is Some,
        ensures
            Some(id) == self.entry(LangItem::ShrTraitLangItem),
    {
        self.item(LangItem::ShrTraitLangItem)
    }

    /// The definition that was found for `index`.
    pub fn index_trait(&self) -> (id: DefId)
        requires
            self.wf(),
            self.entry(LangItem::IndexTraitLangItem) is Some,
        ensures
            Some(id) == self.entry(LangItem::IndexTraitLangItem),
    {
        self.item(LangItem::IndexTraitLangItem)
    }

    /// The definition that was found for `eq`.
    pub fn eq_trait(&self) -> (id: DefId)
        requires
            self.wf(),
            self.entry(LangItem::EqTraitLangItem) is Some,
        ensures
            Some(id) == self.entry(LangItem::EqTraitLangItem),
    {
        self.item(LangItem::EqTraitLangItem)
    }

    /// The definition that was found for `ord`.
    pub fn ord_trait(&self) -> (id: DefId)
        requires
            self.wf(),
            self.entry(LangItem::OrdTraitLangItem) is Some,
        ensures
            Some(id) == self.entry(LangItem::OrdTraitLangItem),
    {
        self.item(LangItem::OrdTraitLangItem)
    }

    /// The definition that was found for `str_eq`.
    pub fn str_eq_fn(&self) -> (id: DefId)
        requires
            self.wf(),
            self.entry(LangItem::StrEqFnLangItem) is Some,
        ensures
            Some(id) == self.entry(LangItem::StrEqFnLangItem),
    {
        self.item(LangItem::StrEqFnLangItem)
    }

    /// The definition that was found for `uniq_str_eq`.
    pub fn uniq_str_eq_fn(&self) -> (id: DefId)
        requires
            self.wf(),
            self.entry(LangItem::UniqStrEqFnLangItem) is Some,
        ensures
            Some(id) == self.entry(LangItem::UniqStrEqFnLangItem),
    {
        self.item(LangItem::UniqStrEqFnLangItem)
    }

    /// The definition that was found for `annihilate`.
    pub fn annihilate_fn(&self) -> (id: DefId)
        requires
            self.wf(),
            self.entry(LangItem::AnnihilateFnLangItem) is Some,
        ensures
            Some(id) == self.entry(LangItem::AnnihilateFnLangItem),
    {
        self.item(LangItem::AnnihilateFnLangItem)
    }

    /// The definition that was found for `log_type`.
    pub fn log_type_fn(&self) -> (id: DefId)
        requires
            self.wf(),
            self.entry(LangItem::LogTypeFnLangItem) is Some,
        ensures
            Some(id) == self.entry(LangItem::LogTypeFnLangItem),
    {
        self.item(LangItem::LogTypeFnLangItem)
    }

    /// The definition that was found for `fail_`.
    pub fn fail_fn(&self) -> (id: DefId)
        requires
            self.wf(),
            self.entry(LangItem::FailFnLangItem) is Some,
        ensures
            Some(id) == self.entry(LangItem::FailFnLangItem),
    {
        self.item(LangItem::FailFnLangItem)
    }

    /// The definition that was found for `fail_bounds_check`.
    pub fn fail_bounds_check_fn(&self) -> (id: DefId)
        requires
            self.wf(),
            self.entry(LangItem::FailBoundsCheckFnLangItem) is Some,
        ensures
            Some(id) == self.entry(LangItem::FailBoundsCheckFnLangItem),
    {
        self.item(LangItem::FailBoundsCheckFnLangItem)
    }

    /// The definition that was found for `exchange_malloc`.
    pub fn exchange_malloc_fn(&self) -> (id: DefId)
        requires
            self.wf(),
            self.entry(LangItem::ExchangeMallocFnLangItem) is Some,
        ensures
            Some(id) == self.entry(LangItem::ExchangeMallocFnLangItem),
    {
        self.item(LangItem::ExchangeMallocFnLangItem)
    }

    /// The definition that was found for `vector_exchange_malloc`.
    pub fn vector_exchange_malloc_fn(&self) -> (id: DefId)
        requires
            self.wf(),
            self.entry(LangItem::VectorExchangeMallocFnLangItem) is Some,
        ensures
            Some(id) == self.entry(LangItem::VectorExchangeMallocFnLangItem),
    {
        self.item(LangItem::VectorExchangeMallocFnLangItem)
    }

    /// The definition that was found for `closure_exchange_malloc`.
    pub fn closure_exchange_malloc_fn(&self) -> (id: DefId)
        requires
            self.wf(),
            self.entry(LangItem::ClosureExchangeMallocFnLangItem) is Some,
        ensures
            Some(id) == self.entry(LangItem::ClosureExchangeMallocFnLangItem),
    {
        self.item(LangItem::ClosureExchangeMallocFnLangItem)
    }

    /// The definition that was found for `exchange_free`.
    pub fn exchange_free_fn(&self) -> (id: DefId)
        requires
            self.wf(),
            self.entry(LangItem::ExchangeFreeFnLangItem) is Some,
        ensures
            Some(id) == self.entry(LangItem::ExchangeFreeFnLangItem),
    {
        self.item(LangItem::ExchangeFreeFnLangItem)
    }

    /// The definition that was found for `malloc`.
    pub fn malloc_fn(&self) -> (id: DefId)
        requires
            self.wf(),
            self.entry(LangItem::MallocFnLangItem) is Some,
        ensures
            Some(id) == self.entry(LangItem::MallocFnLangItem),
    {
        self.item(LangItem::MallocFnLangItem)
    }

    /// The definition that was found for `free`.
    pub fn free_fn(&self) -> (id: DefId)
        requires
            self.wf(),
            self.entry(LangItem::FreeFnLangItem) is Some,
        ensures
            Some(id) == self.entry(LangItem::FreeFnLangItem),
    {
        self.item(LangItem::FreeFnLangItem)
    }

    /// The definition that was found for `borrow_as_imm`.
    pub fn borrow_as_imm_fn(&self) -> (id: DefId)
        requires
            self.wf(),
            self.entry(LangItem::BorrowAsImmFnLangItem) is Some,
        ensures
            Some(id) == self.entry(LangItem::BorrowAsImmFnLangItem),
    {
        self.item(LangItem::BorrowAsImmFnLangItem)
    }

    /// The definition that was found for `borrow_as_mut`.
    pub fn borrow_as_mut_fn(&self) -> (id: DefId)
        requires
            self.wf(),
            self.entry(LangItem::BorrowAsMutFnLangItem) is Some,
        ensures
            Some(id) == self.entry(LangItem::BorrowAsMutFnLangItem),
    {
        self.item(LangItem::BorrowAsMutFnLangItem)
    }

    /// The definition that was found for `return_to_mut`.
    pub fn return_to_mut_fn(&self) -> (id: DefId)
        requires
            self.wf(),
            self.entry(LangItem::ReturnToMutFnLangItem) is Some,
        ensures
            Some(id) == self.entry(LangItem::ReturnToMutFnLangItem),
    {
        self.item(LangItem::ReturnToMutFnLangItem)
    }

    /// The definition that was found for `check_not_borrowed`.
    pub fn check_not_borrowed_fn(&self) -> (id: DefId)
        requires
            self.wf(),
            self.entry(LangItem::CheckNotBorrowedFnLangItem) is Some,
        ensures
            Some(id) == self.entry(LangItem::CheckNotBorrowedFnLangItem),
    {
        self.item(LangItem::CheckNotBorrowedFnLangItem)
    }

    /// The definition that was found for `strdup_uniq`.
    pub fn strdup_uniq_fn(&self) -> (id: DefId)
        requires
            self.wf(),
            self.entry(LangItem::StrDupUniqFnLangItem) is Some,
        ensures
            Some(id) == self.entry(LangItem::StrDupUniqFnLangItem),
    {
        self.item(LangItem::StrDupUniqFnLangItem)
    }

    /// The definition that was found for `record_borrow`.
    pub fn record_borrow_fn(&self) -> (id: DefId)
        requires
            self.wf(),
            self.entry(LangItem::RecordBorrowFnLangItem) is Some,
        ensures
            Some(id) == self.entry(LangItem::RecordBorrowFnLangItem),
    {
        self.item(LangItem::RecordBorrowFnLangItem)
    }

    /// The definition that was found for `unrecord_borrow`.
    pub fn unrecord_borrow_fn(&self) -> (id: DefId)
        requires
            self.wf(),
            self.entry(LangItem::UnrecordBorrowFnLangItem) is Some,
        ensures
            Some(id) == self.entry(LangItem::UnrecordBorrowFnLangItem),
    {
        self.item(LangItem::UnrecordBorrowFnLangItem)
    }

    /// The definition that was found for `start`.
    pub fn start_fn(&self) -> (id: DefId)
        requires
            self.wf(),
            self.entry(LangItem::StartFnLangItem) is Some,
        ensures
            Some(id) == self.entry(LangItem::StartFnLangItem),
    {
        self.item(LangItem::StartFnLangItem)
    }

    /// The definition that was found for `ty_desc`.
    pub fn ty_desc(&self) -> (id: DefId)
        requires
            self.wf(),
            self.entry(LangItem::TyDescStructLangItem) is Some,
        ensures
            Some(id) == self.entry(LangItem::TyDescStructLangItem),
    {
        self.item(LangItem::TyDescStructLangItem)
    }

    /// The definition that was found for `ty_visitor`.
    pub fn ty_visitor(&self) -> (id: DefId)
        requires
            self.wf(),
            self.entry(LangItem::TyVisitorTraitLangItem) is Some,
        ensures
            Some(id) == self.entry(LangItem::TyVisitorTraitLangItem),
    {
        self.item(LangItem::TyVisitorTraitLangItem)
    }

    /// The definition that was found for `opaque`.
    pub fn opaque(&self) -> (id: DefId)
        requires
            self.wf(),
            self.entry(LangItem::OpaqueStructLangItem) is Some,
        ensures
            Some(id) == self.entry(LangItem::OpaqueStructLangItem),
    {
        self.item(LangItem::OpaqueStructLangItem)
    }

}

/// A complaint of the collector.
#[derive(Clone, Copy, PartialEq, Eq, Structural, Debug)]
pub enum Diagnostic {
    /// Two definitions were found for the item at this place.
    DuplicateEntry(usize),
    /// No definition was found for the item at this place.
    NoItemFound(usize),
}

impl Diagnostic {
    /// The complaint in words.
    pub open spec fn text(self) -> Seq<char> {
        match self {
            Diagnostic::DuplicateEntry(index) => "duplicate entry for `"@ + name_of(index as int)
                + "`"@,
            Diagnostic::NoItemFound(index) => "no item found for `"@ + name_of(index as int) + "`"@,
        }
    }

    /// The complaint in words.
    pub fn message(&self) -> (message: String)
        ensures
            message@ == self.text(),
    {
        match self {
            Diagnostic::DuplicateEntry(index) => String::from_str("duplicate entry for `").concat(
                LanguageItems::item_name(*index),
            ).concat("`"),
            Diagnostic::NoItemFound(index) => String::from_str("no item found for `").concat(
                LanguageItems::item_name(*index),
            ).concat("`"),
        }
    }
}

/// The value of an attribute `key = value`.
pub enum Literal {
    /// A string.
    Str(String),
    /// Any other literal.
    Other,
}

/// What stands in an attribute.
pub enum MetaItem {
    /// A word: `name`.
    Word(String),
    /// A list: `name(..)`.
    List(String),
    /// A key and a value: `key = value`.
    NameValue(String, Literal),
}

/// An item of a crate: its node and its attributes.
pub struct Item {
    pub id: i64,
    pub attrs: Vec<MetaItem>,
}

/// The items of the crate that is being compiled.
pub struct Crate {
    pub items: Vec<Item>,
}

/// What is known of a crate that is linked to: its number, and the language
/// items it defines, each with its node and its place in the registry.
pub struct CrateMetadata {
    pub number: i64,
    pub lang_items: Vec<(i64, usize)>,
}

/// A compilation: the crates that are linked to, and the complaints so far.
pub struct Session {
    pub cstore: Vec<CrateMetadata>,
    pub errors: Vec<Diagnostic>,
}

/// What a collector has found so far.
pub struct Collected {
    pub items: Seq<Option<DefId>>,
    pub errors: Seq<Diagnostic>,
}

/// The place of the item registered as `name`, looked for from `from` on.
pub open spec fn place_named_from(name: Seq<char>, from: int) -> Option<int>
    decreases LANG_ITEM_COUNT - from,
{
    if from < 0 || from >= LANG_ITEM_COUNT {
        None
    } else if name_of(from) == name {
        Some(from)
    } else {
        place_named_from(name, from + 1)
    }
}

/// The place of the item registered as `name`.
pub open spec fn place_named(name: Seq<char>) -> Option<int> {
    place_named_from(name, 0)
}

/// A definition for the item at `index` was found: it is entered, and if
/// another definition stood there, that is a duplicate.
pub open spec fn with_item(found: Collected, index: int, id: DefId) -> Collected {
    Collected {
        items: found.items.update(index, Some(id)),
        errors: if found.items[index] is Some && found.items[index]->0 != id {
            found.errors.push(Diagnostic::DuplicateEntry(index as usize))
        } else {
            found.errors
        },
    }
}

/// An attribute `key = "value"` was found on `id`: it counts if the key is
/// `lang` and the value is the name of a language item.
pub open spec fn with_attribute(found: Collected, id: DefId, key: Seq<char>, value: Seq<char>)
    -> Collected {
    if key == "lang"@ && place_named(value) is Some {
        with_item(found, place_named(value)->0, id)
    } else {
        found
    }
}

/// An attribute was found on `id`: it counts if it is a key with a string.
pub open spec fn with_meta_item(found: Collected, id: DefId, meta_item: MetaItem) -> Collected {
    match meta_item {
        MetaItem::NameValue(key, Literal::Str(value)) => with_attribute(found, id, key@, value@),
        _ => found,
    }
}

/// The attributes of `id` were gone through in their order.
pub open spec fn with_attributes(found: Collected, id: DefId, attrs: Seq<MetaItem>) -> Collected
    decreases attrs.len(),
{
    if attrs.len() == 0 {
        found
    } else {
        with_meta_item(with_attributes(found, id, attrs.drop_last()), id, attrs.last())
    }
}

/// The items of the local crate were gone through in their order.
pub open spec fn with_local_items(found: Collected, items: Seq<Item>) -> Collected
    decreases items.len(),
{
    if items.len() == 0 {
        found
    } else {
        with_attributes(
            with_local_items(found, items.drop_last()),
            DefId { krate: LOCAL_CRATE, node: items.last().id },
            items.last().attrs@,
        )
    }
}

/// The language items of the crate `number` were gone through in their order.
pub open spec fn with_crate_items(found: Collected, number: i64, entries: Seq<(i64, usize)>)
    -> Collected
    decreases entries.len(),
{
    if entries.len() == 0 {
        found
    } else {
        with_item(
            with_crate_items(found, number, entries.drop_last()),
            entries.last().1 as int,
            DefId { krate: number, node: entries.last().0 },
        )
    }
}

/// The crates that are linked to were gone through in their order.
pub open spec fn with_external_items(found: Collected, crates: Seq<CrateMetadata>) -> Collected
    decreases crates.len(),
{
    if crates.len() == 0 {
        found
    } else {
        with_crate_items(
            with_external_items(found, crates.drop_last()),
            crates.last().number,
            crates.last().lang_items@,
        )
    }
}

/// Each place below `upto` that is empty was complained of, in the order of
/// the places.
pub open spec fn with_missing(found: Collected, upto: int) -> Collected
    decreases upto,
{
    if upto <= 0 {
        found
    } else if found.items[upto - 1] is None {
        Collected {
            items: found.items,
            errors: with_missing(found, upto - 1).errors.push(
                Diagnostic::NoItemFound((upto - 1) as usize),
            ),
        }
    } else {
        with_missing(found, upto - 1)
    }
}

/// Every language item that a crate that is linked to defines has a place in
/// the registry.
pub open spec fn places_ok(crates: Seq<CrateMetadata>) -> bool {
    forall|c: int, e: int|
        0 <= c < crates.len() && 0 <= e < crates[c].lang_items@.len() ==> (
        #[trigger] crates[c].lang_items@[e]).1 < LANG_ITEM_COUNT
}

/// Whether two strings hold the same text.
fn same_text(a: &str, b: &str) -> (same: bool)
    ensures
        same == (a@ == b@),
{
    String::from_str(a) == String::from_str(b)
}

/// Fills a registry from the items of a crate and of the crates it links to.
pub struct LanguageItemCollector<'a> {
    items: LanguageItems,
    krate: &'a Crate,
    session: Session,
}

impl<'a> View for LanguageItemCollector<'a> {
    type V = Collected;

    closed spec fn view(&self) -> Collected {
        Collected { items: self.items@, errors: self.session.errors@ }
    }
}

impl<'a> LanguageItemCollector<'a> {
    /// The crate whose items the collector goes through.
    pub closed spec fn krate(&self) -> Crate {
        *self.krate
    }

    /// The crates that the compilation links to.
    pub closed spec fn cstore(&self) -> Seq<CrateMetadata> {
        self.session.cstore@
    }

    /// The registry has a place for each language item.
    pub open spec fn wf(&self) -> bool {
        self@.items.len() == LANG_ITEM_COUNT
    }

    /// A collector that has found nothing yet.
    pub fn new(krate: &'a Crate, session: Session) -> (collector: LanguageItemCollector<'a>)
        ensures
            collector.wf(),
            collector.krate() == *krate,
            collector.cstore() == session.cstore@,
            collector@.errors == session.errors@,
            forall|i: int| 0 <= i < LANG_ITEM_COUNT ==> collector@.items[i] is None,
    {
        LanguageItemCollector { items: LanguageItems::new(), krate, session }
    }

    /// Ends the collection: the registry as it was filled, and the compilation
    /// with the complaints that were made.
    pub fn finish(self) -> (parts: (LanguageItems, Session))
        ensures
            parts.0@ == self@.items,
            parts.1.errors@ == self@.errors,
            parts.1.cstore@ == self.cstore(),
    {
        let LanguageItemCollector { items, krate: _, session } = self;
        (items, session)
    }

    /// The place of the item that is registered as `name`, if there is one.
    pub fn item_ref(name: &str) -> (place: Option<usize>)
        ensures
            place is Some == place_named(name@) is Some,
            place is Some ==> place->0 == place_named(name@)->0 && place->0 < LANG_ITEM_COUNT,
    {
        let mut i: usize = 0;
        while i < LANG_ITEM_COUNT
            invariant
                i <= LANG_ITEM_COUNT,
                place_named(name@) == place_named_from(name@, i as int),
            decreases LANG_ITEM_COUNT - i,
        {
            if same_text(LanguageItems::item_name(i), name) {
                return Some(i);
            }
            i += 1;
        }
        None
    }

    /// Takes an attribute of the item `item_def_id` into account.
    pub fn match_and_collect_meta_item(&mut self, item_def_id: DefId, meta_item: &MetaItem)
        requires
            old(self).wf(),
        ensures
            final(self).wf(),
            final(self).krate() == old(self).krate(),
            final(self).cstore() == old(self).cstore(),
            final(self)@ == with_meta_item(old(self)@, item_def_id, *meta_item),
    {
        match meta_item {
            MetaItem::NameValue(key, literal) => {
                match literal {
                    Literal::Str(value) => {
                        self.match_and_collect_item(item_def_id, key.as_str(), value.as_str());
                    },
                    _ => {},
                }
            },
            _ => {},
        }
    }

    /// Enters `item_def_id` as the definition of the item at `item_index`, and
    /// complains if another definition stood there.
    pub fn collect_item(&mut self, item_index: usize, item_def_id: DefId)
        requires
            old(self).wf(),
            item_index < LANG_ITEM_COUNT,
        ensures
            final(self).wf(),
            final(self).krate() == old(self).krate(),
            final(self).cstore() == old(self).cstore(),
            final(self)@ == with_item(old(self)@, item_index as int, item_def_id),
    {
        match self.items.items[item_index] {
            Some(original_def_id) => {
                if original_def_id != item_def_id {
                    self.session.errors.push(Diagnostic::DuplicateEntry(item_index));
                }
            },
            None => {},
        }
        self.items.items[item_index] = Some(item_def_id);
    }

    /// Takes an attribute `key = "value"` of the item `item_def_id` into account.
    pub fn match_and_collect_item(&mut self, item_def_id: DefId, key: &str, value: &str)
        requires
            old(self).wf(),
        ensures
            final(self).wf(),
            final(self).krate() == old(self).krate(),
            final(self).cstore() == old(self).cstore(),
            final(self)@ == with_attribute(old(self)@, item_def_id, key@, value@),
    {
        if !same_text("lang", key) {
            return ;
        }
        match LanguageItemCollector::item_ref(value) {
            Some(item_index) => {
                self.collect_item(item_index, item_def_id);
            },
            None => {},
        }
    }

    /// Goes through the attributes of the items of the local crate.
    pub fn collect_local_language_items(&mut self)
        requires
            old(self).wf(),
        ensures
            final(self).wf(),
            final(self).krate() == old(self).krate(),
            final(self).cstore() == old(self).cstore(),
            final(self)@ == with_local_items(old(self)@, old(self).krate().items@),
    {
        let krate = self.krate;
        let mut i: usize = 0;
        while i < krate.items.len()
            invariant
                self.wf(),
                i <= krate.items@.len(),
                self.krate() == old(self).krate(),
                self.cstore() == old(self).cstore(),
                *krate == old(self).krate(),
                self@ == with_local_items(old(self)@, krate.items@.take(i as int)),
            decreases krate.items@.len() - i,
        {
            let item = &krate.items[i];
            let id = DefId { krate: LOCAL_CRATE, node: item.id };
            let ghost before = self@;
            let mut j: usize = 0;
            while j < item.attrs.len()
                invariant
                    self.wf(),
                    j <= item.attrs@.len(),
                    self.krate() == old(self).krate(),
                    self.cstore() == old(self).cstore(),
                    self@ == with_attributes(before, id, item.attrs@.take(j as int)),
                decreases item.attrs@.len() - j,
            {
                self.match_and_collect_meta_item(id, &item.attrs[j]);
                assert(item.attrs@.take(j + 1).drop_last() =~= item.attrs@.take(j as int));
                j += 1;
            }
            assert(item.attrs@.take(j as int) =~= item.attrs@);
            assert(krate.items@.take(i + 1).drop_last() =~= krate.items@.take(i as int));
            i += 1;
        }
        assert(krate.items@.take(i as int) =~= krate.items@);
    }

    /// Goes through the language items of the crates that are linked to.
    pub fn collect_external_language_items(&mut self)
        requires
            old(self).wf(),
            places_ok(old(self).cstore()),
        ensures
            final(self).wf(),
            final(self).krate() == old(self).krate(),
            final(self).cstore() == old(self).cstore(),
            final(self)@ == with_external_items(old(self)@, old(self).cstore()),
    {
        let ghost crates = self.session.cstore@;
        let mut c: usize = 0;
        while c < self.session.cstore.len()
            invariant
                self.wf(),
                c <= crates.len(),
                self.krate() == old(self).krate(),
                self.session.cstore@ == crates,
                crates == old(self).cstore(),
                places_ok(crates),
                self@ == with_external_items(old(self)@, crates.take(c as int)),
            decreases crates.len() - c,
        {
            let ghost before = self@;
            let ghost entries = crates[c as int].lang_items@;
            let number = self.session.cstore[c].number;
            let mut e: usize = 0;
            while e < self.session.cstore[c].lang_items.len()
                invariant
                    self.wf(),
                    c < crates.len(),
                    e <= entries.len(),
                    self.krate() == old(self).krate(),
                    self.session.cstore@ == crates,
                    entries == crates[c as int].lang_items@,
                    number == crates[c as int].number,
                    places_ok(crates),
                    self@ == with_crate_items(before, number, entries.take(e as int)),
                decreases entries.len() - e,
            {
                let (node_id, item_index) = self.session.cstore[c].lang_items[e];
                let def_id = DefId { krate: number, node: node_id };
                self.collect_item(item_index, def_id);
                assert(entries.take(e + 1).drop_last() =~= entries.take(e as int));
                e += 1;
            }
            assert(entries.take(e as int) =~= entries);
            assert(crates.take(c + 1).drop_last() =~= crates.take(c as int));
            c += 1;
        }
        assert(crates.take(c as int) =~= crates);
    }

    /// Complains of each language item that has no definition.
    pub fn check_completeness(&mut self)
        requires
            old(self).wf(),
        ensures
            final(self).wf(),
            final(self).krate() == old(self).krate(),
            final(self).cstore() == old(self).cstore(),
            final(self)@ == with_missing(old(self)@, LANG_ITEM_COUNT as int),
    {
        let mut i: usize = 0;
        while i < LANG_ITEM_COUNT
            invariant
                self.wf(),
                i <= LANG_ITEM_COUNT,
                self.krate() == old(self).krate(),
                self.cstore() == old(self).cstore(),
                self@.items == old(self)@.items,
                self@ == with_missing(old(self)@, i as int),
            decreases LANG_ITEM_COUNT - i,
        {
            if self.items.items[i].is_none() {
                self.session.errors.push(Diagnostic::NoItemFound(i));
            }
            i += 1;
        }
    }

    /// Collects the language items of the local crate, then those of the
    /// crates that are linked to, and complains of those that are missing.
    pub fn collect(&mut self)
        requires
            old(self).wf(),
            places_ok(old(self).cstore()),
        ensures
            final(self).wf(),
            final(self).krate() == old(self).krate(),
            final(self).cstore() == old(self).cstore(),
            final(self)@ == with_missing(
                with_external_items(
                    with_local_items(old(self)@, old(self).krate().items@),
                    old(self).cstore(),
                ),
                LANG_ITEM_COUNT as int,
            ),
    {
        self.collect_local_language_items();
        self.collect_external_language_items();
        self.check_completeness();
    }
}

/// What collecting finds in `krate` and the crates of `session`, from a
/// registry in which no item is defined.
pub open spec fn collected(krate: Crate, session: Session) -> Collected {
    with_missing(
        with_external_items(
            with_local_items(
                Collected {
                    items: Seq::new(LANG_ITEM_COUNT as nat, |i: int| None),
                    errors: session.errors@,
                },
                krate.items@,
            ),
            session.cstore@,
        ),
        LANG_ITEM_COUNT as int,
    )
}

/// Collects the language items of `krate` and of the crates that `session`
/// links to. Returns the registry if nothing was complained of, in this
/// compilation so far or by the collector, and all the complaints otherwise.
pub fn collect_language_items(krate: &Crate, session: Session) -> (res: Result<
    LanguageItems,
    Vec<Diagnostic>,
>)
    requires
        places_ok(session.cstore@),
    ensures
        res is Ok <==> collected(*krate, session).errors.len() == 0,
        res is Ok ==> res->Ok_0.wf() && res->Ok_0@ == collected(*krate, session).items,
        res is Err ==> res->Err_0@ == collected(*krate, session).errors,
        res is Ok ==> forall|i: int| 0 <= i < LANG_ITEM_COUNT ==> res->Ok_0@[i] is Some,
{
    proof {
        lemma_complete_iff_no_complaint(
            with_external_items(
                with_local_items(
                    Collected {
                        items: Seq::new(LANG_ITEM_COUNT as nat, |i: int| None),
                        errors: session.errors@,
                    },
                    krate.items@,
                ),
                session.cstore@,
            ),
            LANG_ITEM_COUNT as int,
        );
    }
    let mut collector = LanguageItemCollector::new(krate, session);
    assert(collector@.items =~= Seq::new(LANG_ITEM_COUNT as nat, |i: int| None));
    collector.collect();
    let (items, session) = collector.finish();
    if session.errors.len() == 0 {
        Ok(items)
    } else {
        Err(session.errors)
    }
}

/// No two language items are registered under one name.
pub proof fn lemma_names_are_distinct(i: int, j: int)
    requires
        0 <= i < LANG_ITEM_COUNT,
        0 <= j < LANG_ITEM_COUNT,
        i != j,
    ensures
        name_of(i) != name_of(j),
{
    lemma_mark(i);
    lemma_mark(j);
}

/// What tells the names apart: the length, the first character and the last.
spec fn mark(name: Seq<char>) -> (nat, char, char) {
    (name.len(), name[0], name[name.len() - 1])
}

spec fn mark_of(index: int) -> (nat, char, char) {
    if index == 0 {
        (6, 'f', 'e')
    } else if index == 1 {
        (4, 'c', 'y')
    } else if index == 2 {
        (4, 's', 'd')
    } else if index == 3 {
        (5, 's', 'd')
    } else if index == 4 {
        (4, 'd', 'p')
    } else if index == 5 {
        (3, 'a', 'd')
    } else if index == 6 {
        (3, 's', 'b')
    } else if index == 7 {
        (3, 'm', 'l')
    } else if index == 8 {
        (3, 'd', 'v')
    } else if index == 9 {
        (3, 'r', 'm')
    } else if index == 10 {
        (3, 'n', 'g')
    } else if index == 11 {
        (3, 'n', 't')
    } else if index == 12 {
        (6, 'b', 'r')
    } else if index == 13 {
        (6, 'b', 'd')
    } else if index == 14 {
        (5, 'b', 'r')
    } else if index == 15 {
        (3, 's', 'l')
    } else if index == 16 {
        (3, 's', 'r')
    } else if index == 17 {
        (5, 'i', 'x')
    } else if index == 18 {
        (2, 'e', 'q')
    } else if index == 19 {
        (3, 'o', 'd')
    } else if index == 20 {
        (6, 's', 'q')
    } else if index == 21 {
        (11, 'u', 'q')
    } else if index == 22 {
        (10, 'a', 'e')
    } else if index == 23 {
        (8, 'l', 'e')
    } else if index == 24 {
        (5, 'f', '_')
    } else if index == 25 {
        (17, 'f', 'k')
    } else if index == 26 {
        (15, 'e', 'c')
    } else if index == 27 {
        (22, 'v', 'c')
    } else if index == 28 {
        (23, 'c', 'c')
    } else if index == 29 {
        (13, 'e', 'e')
    } else if index == 30 {
        (6, 'm', 'c')
    } else if index == 31 {
        (4, 'f', 'e')
    } else if index == 32 {
        (13, 'b', 'm')
    } else if index == 33 {
        (13, 'b', 't')
    } else if index == 34 {
        (13, 'r', 't')
    } else if index == 35 {
        (18, 'c', 'd')
    } else if index == 36 {
        (11, 's', 'q')
    } else if index == 37 {
        (13, 'r', 'w')
    } else if index == 38 {
        (15, 'u', 'w')
    } else if index == 39 {
        (5, 's', 't')
    } else if index == 40 {
        (7, 't', 'c')
    } else if index == 41 {
        (10, 't', 'r')
    } else if index == 42 {
        (6, 'o', 'e')
    } else {
        (0, ' ', ' ')
    }
}

proof fn lemma_mark(index: int)
    requires
        0 <= index < LANG_ITEM_COUNT,
    ensures
        mark(name_of(index)) == mark_of(index),
{
    reveal_strlit("freeze");
    reveal_strlit("copy");
    reveal_strlit("send");
    reveal_strlit("sized");
    reveal_strlit("drop");
    reveal_strlit("add");
    reveal_strlit("sub");
    reveal_strlit("mul");
    reveal_strlit("div");
    reveal_strlit("rem");
    reveal_strlit("neg");
    reveal_strlit("not");
    reveal_strlit("bitxor");
    reveal_strlit("bitand");
    reveal_strlit("bitor");
    reveal_strlit("shl");
    reveal_strlit("shr");
    reveal_strlit("index");
    reveal_strlit("eq");
    reveal_strlit("ord");
    reveal_strlit("str_eq");
    reveal_strlit("uniq_str_eq");
    reveal_strlit("annihilate");
    reveal_strlit("log_type");
    reveal_strlit("fail_");
    reveal_strlit("fail_bounds_check");
    reveal_strlit("exchange_malloc");
    reveal_strlit("vector_exchange_malloc");
    reveal_strlit("closure_exchange_malloc");
    reveal_strlit("exchange_free");
    reveal_strlit("malloc");
    reveal_strlit("free");
    reveal_strlit("borrow_as_imm");
    reveal_strlit("borrow_as_mut");
    reveal_strlit("return_to_mut");
    reveal_strlit("check_not_borrowed");
    reveal_strlit("strdup_uniq");
    reveal_strlit("record_borrow");
    reveal_strlit("unrecord_borrow");
    reveal_strlit("start");
    reveal_strlit("ty_desc");
    reveal_strlit("ty_visitor");
    reveal_strlit("opaque");
}

/// Looking a language item up by its name finds the place of that item.
pub proof fn lemma_name_finds_place(i: int)
    requires
        0 <= i < LANG_ITEM_COUNT,
    ensures
        place_named(name_of(i)) == Some(i),
{
    lemma_name_finds_place_from(i, 0);
}

proof fn lemma_name_finds_place_from(i: int, from: int)
    requires
        0 <= from <= i < LANG_ITEM_COUNT,
    ensures
        place_named_from(name_of(i), from) == Some(i),
    decreases i - from,
{
    if from < i {
        lemma_names_are_distinct(from, i);
        lemma_name_finds_place_from(i, from + 1);
    }
}

/// A name that is found is the name of the item at the place that was found.
pub proof fn lemma_place_has_name(name: Seq<char>)
    requires
        place_named(name) is Some,
    ensures
        0 <= place_named(name)->0 < LANG_ITEM_COUNT,
        name_of(place_named(name)->0) == name,
{
    lemma_place_has_name_from(name, 0);
}

proof fn lemma_place_has_name_from(name: Seq<char>, from: int)
    requires
        place_named_from(name, from) is Some,
    ensures
        from <= place_named_from(name, from)->0 < LANG_ITEM_COUNT,
        name_of(place_named_from(name, from)->0) == name,
    decreases LANG_ITEM_COUNT - from,
{
    if 0 <= from < LANG_ITEM_COUNT && name_of(from) != name {
        lemma_place_has_name_from(name, from + 1);
    }
}

/// A definition that is found twice is no duplicate: entering it again
/// changes nothing.
pub proof fn lemma_same_definition_is_no_duplicate(found: Collected, index: int, id: DefId)
    requires
        0 <= index < found.items.len(),
    ensures
        with_item(with_item(found, index, id), index, id) == with_item(found, index, id),
{
    assert(found.items.update(index, Some(id)).update(index, Some(id)) =~= found.items.update(
        index,
        Some(id),
    ));
}

/// The check for missing items leaves the registry as it is and takes no
/// complaint back, and it adds none if and only if each place is filled.
pub proof fn lemma_complete_iff_no_complaint(found: Collected, upto: int)
    ensures
        with_missing(found, upto).items == found.items,
        with_missing(found, upto).errors.len() >= found.errors.len(),
        with_missing(found, upto).errors.len() == found.errors.len() <==> forall|i: int|
            0 <= i < upto ==> found.items[i] is Some,
    decreases upto,
{
    if upto > 0 {
        lemma_complete_iff_no_complaint(found, upto - 1);
    }
}

} // verus!
