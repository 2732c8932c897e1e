use vstd::prelude::*;

use crate::item::{Icon, Menu, MenuItem};

verus! {

broadcast use {
    vstd::seq::axiom_seq_index_decreases,
    vstd::seq::axiom_seq_subrange_decreases,
    vstd::std_specs::vec::axiom_vec_decreases_to_view,
};

/// How an icon finds the entry it is attached to.
#[derive(Debug, Clone, Copy, PartialEq, Eq, Structural)]
pub enum IconTarget {
    /// A button, addressed by its native item id.
    ById(usize),
    /// A submenu entry, addressed by its position within its parent menu.
    ByPosition(usize),
}

/// One call into the windowing system. Menus are named by slot: the slot of a
/// menu is the number of menus created before it, so the root menu is slot 0.
#[derive(Debug, Clone, PartialEq, Eq)]
pub enum NativeOp {
    /// Create an empty popup menu; it takes the next free slot.
    CreateMenu,
    /// Append a separator to the menu in slot `menu`.
    AppendSeparator { menu: usize },
    /// Append a string entry with item id `id` to the menu in slot `menu`.
    AppendButton { menu: usize, id: usize, name: String, checked: bool, disabled: bool },
    /// Append the menu in slot `submenu` as a popup entry of the menu in slot `menu`.
    AppendSubmenu { menu: usize, submenu: usize, name: String },
    /// Resolve `icon` to a bitmap and attach it to an entry of the menu in slot `menu`.
    SetIcon { menu: usize, target: IconTarget, icon: Icon },
}

/// The signals of the buttons of `items`, depth first and left to right.
pub open spec fn signals_of<T>(items: Seq<MenuItem<T>>) -> Seq<T>
    decreases items,
{
    if items.len() == 0 {
        Seq::empty()
    } else {
        signals_of(items.drop_last()) + item_signals(items.last())
    }
}

/// The signals of the buttons of one entry, depth first and left to right.
pub open spec fn item_signals<T>(item: MenuItem<T>) -> Seq<T>
    decreases item,
{
    match item {
        MenuItem::Separator => Seq::empty(),
        MenuItem::Button { signal, .. } => seq![signal],
        MenuItem::Menu { children, .. } => signals_of(children@),
    }
}

/// The number of `Button` leaves in `items`, at any depth.
pub open spec fn button_count<T>(items: Seq<MenuItem<T>>) -> nat
    decreases items,
{
    if items.len() == 0 {
        0
    } else {
        button_count(items.drop_last()) + item_button_count(items.last())
    }
}

/// The number of `Button` leaves in one entry, itself included.
pub open spec fn item_button_count<T>(item: MenuItem<T>) -> nat
    decreases item,
{
    match item {
        MenuItem::Separator => 0,
        MenuItem::Button { .. } => 1,
        MenuItem::Menu { children, .. } => button_count(children@),
    }
}

/// The number of submenus in `items`, at any depth.
pub open spec fn menus_in<T>(items: Seq<MenuItem<T>>) -> nat
    decreases items,
{
    if items.len() == 0 {
        0
    } else {
        menus_in(items.drop_last()) + item_menus(items.last())
    }
}

/// The number of submenus in one entry, itself included.
pub open spec fn item_menus<T>(item: MenuItem<T>) -> nat
    decreases item,
{
    match item {
        MenuItem::Menu { children, .. } => 1 + menus_in(children@),
        _ => 0,
    }
}

/// The operations that fill the menu in slot `menu` with `items`, where `slot`
/// menus have been created and `id` buttons numbered before.
pub open spec fn level_ops<T>(items: Seq<MenuItem<T>>, menu: nat, slot: nat, id: nat) -> Seq<NativeOp>
    decreases items,
{
    if items.len() == 0 {
        Seq::empty()
    } else {
        let pre = items.drop_last();
        level_ops(pre, menu, slot, id) + item_ops(
            items.last(),
            menu,
            slot + menus_in(pre),
            id + signals_of(pre).len(),
            pre.len(),
        )
    }
}

/// The operations for one entry at position `pos` of the menu in slot `menu`.
pub open spec fn item_ops<T>(item: MenuItem<T>, menu: nat, slot: nat, id: nat, pos: nat) -> Seq<NativeOp>
    decreases item,
{
    match item {
        MenuItem::Separator => seq![NativeOp::AppendSeparator { menu: menu as usize }],
        MenuItem::Button { name, checked, disabled, icon, .. } => {
            let append = NativeOp::AppendButton {
                menu: menu as usize,
                id: id as usize,
                name,
                checked: checked == Some(true),
                disabled,
            };
            match icon {
                Some(ic) => seq![
                    append,
                    NativeOp::SetIcon { menu: menu as usize, target: IconTarget::ById(id as usize), icon: ic },
                ],
                None => seq![append],
            }
        },
        MenuItem::Menu { name, children, icon } => {
            let build = seq![NativeOp::CreateMenu] + level_ops(children@, slot, slot + 1, id) + seq![
                NativeOp::AppendSubmenu { menu: menu as usize, submenu: slot as usize, name },
            ];
            match icon {
                Some(ic) => build.push(
                    NativeOp::SetIcon {
                        menu: menu as usize,
                        target: IconTarget::ByPosition(pos as usize),
                        icon: ic,
                    },
                ),
                None => build,
            }
        },
    }
}

/// The operations that build a whole menu: the root menu in slot 0, then its entries.
pub open spec fn menu_ops<T>(items: Seq<MenuItem<T>>) -> Seq<NativeOp> {
    seq![NativeOp::CreateMenu] + level_ops(items, 0, 1, 0)
}

/// Each button of a menu description gives exactly one signal, and separators
/// and submenus give none: the signal collection has one entry per `Button` leaf.
pub proof fn lemma_one_signal_per_button<T>(items: Seq<MenuItem<T>>)
    ensures
        signals_of(items).len() == button_count(items),
    decreases items,
{
    if items.len() > 0 {
        lemma_one_signal_per_button(items.drop_last());
        lemma_item_one_signal_per_button(items.last());
    }
}

/// The entry-level form of `lemma_one_signal_per_button`.
pub proof fn lemma_item_one_signal_per_button<T>(item: MenuItem<T>)
    ensures
        item_signals(item).len() == item_button_count(item),
    decreases item,
{
    match item {
        MenuItem::Menu { children, .. } => {
            lemma_one_signal_per_button(children@);
        },
        _ => {},
    }
}

/// The item ids of the buttons that `ops` append, in order.
pub open spec fn appended_ids(ops: Seq<NativeOp>) -> Seq<usize>
    decreases ops.len(),
{
    if ops.len() == 0 {
        Seq::empty()
    } else {
        appended_ids(ops.drop_last()) + match ops.last() {
            NativeOp::AppendButton { id, .. } => seq![id],
            _ => Seq::empty(),
        }
    }
}

/// The ids `id`, `id + 1`, ..., `id + n - 1`.
pub open spec fn id_run(id: nat, n: nat) -> Seq<usize> {
    Seq::new(n, |j: int| (id + j) as usize)
}

proof fn lemma_appended_ids_concat(a: Seq<NativeOp>, b: Seq<NativeOp>)
    ensures
        appended_ids(a + b) == appended_ids(a) + appended_ids(b),
    decreases b.len(),
{
    if b.len() == 0 {
        assert(a + b =~= a);
        assert(appended_ids(a) + appended_ids(b) =~= appended_ids(a));
    } else {
        assert((a + b).drop_last() =~= a + b.drop_last());
        assert((a + b).last() == b.last());
        lemma_appended_ids_concat(a, b.drop_last());
        assert(appended_ids(a + b) =~= appended_ids(a) + appended_ids(b));
    }
}

proof fn lemma_appended_ids_single(op: NativeOp)
    ensures
        appended_ids(seq![op]) == match op {
            NativeOp::AppendButton { id, .. } => seq![id],
            _ => Seq::<usize>::empty(),
        },
{
    assert(seq![op].drop_last() =~= Seq::<NativeOp>::empty());
    assert(appended_ids(seq![op]) =~= appended_ids(Seq::<NativeOp>::empty()) + match op {
        NativeOp::AppendButton { id, .. } => seq![id],
        _ => Seq::<usize>::empty(),
    });
}

proof fn lemma_id_run_concat(id: nat, a: nat, b: nat)
    ensures
        id_run(id, a) + id_run(id + a, b) == id_run(id, a + b),
{
    assert(id_run(id, a) + id_run(id + a, b) =~= id_run(id, a + b));
}

proof fn lemma_level_ids<T>(items: Seq<MenuItem<T>>, menu: nat, slot: nat, id: nat)
    ensures
        appended_ids(level_ops(items, menu, slot, id)) == id_run(id, signals_of(items).len()),
    decreases items,
{
    if items.len() == 0 {
        assert(id_run(id, 0) =~= Seq::<usize>::empty());
    } else {
        let pre = items.drop_last();
        let a = signals_of(pre).len();
        lemma_level_ids(pre, menu, slot, id);
        lemma_item_ids(items.last(), menu, slot + menus_in(pre), id + a, pre.len());
        lemma_appended_ids_concat(
            level_ops(pre, menu, slot, id),
            item_ops(items.last(), menu, slot + menus_in(pre), id + a, pre.len()),
        );
        lemma_id_run_concat(id, a, item_signals(items.last()).len());
    }
}

proof fn lemma_item_ids<T>(item: MenuItem<T>, menu: nat, slot: nat, id: nat, pos: nat)
    ensures
        appended_ids(item_ops(item, menu, slot, id, pos)) == id_run(id, item_signals(item).len()),
    decreases item,
{
    match item {
        MenuItem::Separator => {
            lemma_appended_ids_single(NativeOp::AppendSeparator { menu: menu as usize });
            assert(id_run(id, 0) =~= Seq::<usize>::empty());
        },
        MenuItem::Button { name, checked, disabled, icon, .. } => {
            let append = NativeOp::AppendButton {
                menu: menu as usize,
                id: id as usize,
                name,
                checked: checked == Some(true),
                disabled,
            };
            lemma_appended_ids_single(append);
            assert(id_run(id, 1) =~= seq![id as usize]);
            match icon {
                Some(ic) => {
                    let set = NativeOp::SetIcon { menu: menu as usize, target: IconTarget::ById(id as usize), icon: ic };
                    lemma_appended_ids_single(set);
                    lemma_appended_ids_concat(seq![append], seq![set]);
                    assert(seq![append] + seq![set] =~= seq![append, set]);
                },
                None => {},
            }
        },
        MenuItem::Menu { name, children, icon } => {
            let create = seq![NativeOp::CreateMenu];
            let inner = level_ops(children@, slot, slot + 1, id);
            let attach = seq![NativeOp::AppendSubmenu { menu: menu as usize, submenu: slot as usize, name }];
            lemma_level_ids(children@, slot, slot + 1, id);
            lemma_appended_ids_single(NativeOp::CreateMenu);
            lemma_appended_ids_single(attach[0]);
            assert(attach =~= seq![attach[0]]);
            lemma_appended_ids_concat(create, inner);
            lemma_appended_ids_concat(create + inner, attach);
            let build = create + inner + attach;
            assert(appended_ids(build) =~= id_run(id, signals_of(children@).len()));
            match icon {
                Some(ic) => {
                    let set = NativeOp::SetIcon {
                        menu: menu as usize,
                        target: IconTarget::ByPosition(pos as usize),
                        icon: ic,
                    };
                    lemma_appended_ids_single(set);
                    lemma_appended_ids_concat(build, seq![set]);
                    assert(build.push(set) =~= build + seq![set]);
                    assert(appended_ids(build.push(set)) =~= appended_ids(build));
                },
                None => {},
            }
        },
    }
}

/// Buttons are numbered in the order in which they are appended, from 0 and
/// without gaps: the k-th button that a build appends gets item id k, which is
/// the index of its signal in the signal collection.
pub proof fn lemma_ids_follow_append_order<T>(items: Seq<MenuItem<T>>)
    ensures
        appended_ids(menu_ops(items)) == id_run(0, signals_of(items).len()),
{
    lemma_level_ids(items, 0, 1, 0);
    lemma_appended_ids_single(NativeOp::CreateMenu);
    lemma_appended_ids_concat(seq![NativeOp::CreateMenu], level_ops(items, 0, 1, 0));
    assert(Seq::<usize>::empty() + id_run(0, signals_of(items).len()) =~= id_run(0, signals_of(items).len()));
}

/// Appends to `ops` the operations that fill the menu in slot `menu` with
/// `items`, and to `signals` the signals of their buttons; `slots` counts the
/// menus created so far.
fn add_all<T>(
    menu: usize,
    items: Vec<MenuItem<T>>,
    ops: &mut Vec<NativeOp>,
    signals: &mut Vec<T>,
    slots: &mut usize,
)
    requires
        menu < *old(slots),
        *old(slots) <= old(ops)@.len(),
    ensures
        final(ops)@ == old(ops)@ + level_ops(
            items@,
            menu as nat,
            *old(slots) as nat,
            old(signals)@.len(),
        ),
        final(signals)@ == old(signals)@ + signals_of(items@),
        *final(slots) == *old(slots) + menus_in(items@),
        *final(slots) <= final(ops)@.len(),
    decreases items@,
{
    let ghost orig = items@;
    let ghost ops0 = ops@;
    let ghost sig0 = signals@;
    let ghost slot0 = *slots;
    let total: usize = items.len();
    let mut rest = items;
    let mut i: usize = 0;
    while i < total
        invariant
            orig == items@,
            orig.len() == total,
            i <= total,
            rest@ == orig.subrange(i as int, orig.len() as int),
            menu < slot0 <= *slots,
            ops@ == ops0 + level_ops(orig.subrange(0, i as int), menu as nat, slot0 as nat, sig0.len()),
            signals@ == sig0 + signals_of(orig.subrange(0, i as int)),
            *slots == slot0 + menus_in(orig.subrange(0, i as int)),
            *slots <= ops@.len(),
        decreases total - i,
    {
        let ghost pre = orig.subrange(0, i as int);
        let ghost next = orig.subrange(0, i + 1);
        let ghost ops_before = ops@;
        let ghost sig_before = signals@;
        let ghost slots_before = *slots;
        proof {
            assert(next.drop_last() =~= pre);
            assert(rest@[0] == orig[i as int]);
        }
        let item = rest.remove(0);
        match item {
            MenuItem::Separator => {
                ops.push(NativeOp::AppendSeparator { menu });
            },
            MenuItem::Button { name, signal, disabled, checked, icon } => {
                let id: usize = signals.len();
                let is_checked = match checked {
                    Some(c) => c,
                    None => false,
                };
                ops.push(NativeOp::AppendButton { menu, id, name, checked: is_checked, disabled });
                match icon {
                    Some(ic) => {
                        ops.push(NativeOp::SetIcon { menu, target: IconTarget::ById(id), icon: ic });
                    },
                    None => {},
                }
                signals.push(signal);
            },
            MenuItem::Menu { name, children, icon } => {
                let submenu = *slots;
                ops.push(NativeOp::CreateMenu);
                let issued: usize = ops.len();
                assert(submenu < issued);
                *slots = submenu + 1;
                proof {
                    assert(decreases_to!(orig => orig[i as int]));
                    assert(decreases_to!(orig[i as int] => children));
                    assert(decreases_to!(children => children@));
                    assert(decreases_to!(orig => children@));
                }
                add_all(submenu, children, ops, signals, slots);
                ops.push(NativeOp::AppendSubmenu { menu, submenu, name });
                match icon {
                    Some(ic) => {
                        ops.push(NativeOp::SetIcon { menu, target: IconTarget::ByPosition(i), icon: ic });
                    },
                    None => {},
                }
            },
        }
        proof {
            assert(ops@ =~= ops_before + item_ops(
                orig[i as int],
                menu as nat,
                slots_before as nat,
                sig_before.len(),
                i as nat,
            ));
            assert(ops@ =~= ops0 + level_ops(next, menu as nat, slot0 as nat, sig0.len()));
            assert(signals@ =~= sig_before + item_signals(orig[i as int]));
            assert(signals@ =~= sig0 + signals_of(next));
            assert(*slots == slots_before + item_menus(orig[i as int]));
        }
        i = i + 1;
    }
    proof {
        assert(orig.subrange(0, i as int) =~= orig);
    }
}

/// Turns a menu description into the operations that build it natively, and
/// the signal collection in which the index of a signal is the item id of its
/// button.
pub fn plan<T>(menu: Menu<T>) -> (r: (Vec<NativeOp>, Vec<T>))
    ensures
        r.0@ == menu_ops(menu.items@),
        r.1@ == signals_of(menu.items@),
{
    let mut ops: Vec<NativeOp> = Vec::new();
    let mut signals: Vec<T> = Vec::new();
    ops.push(NativeOp::CreateMenu);
    let mut slots: usize = 1;
    add_all(0, menu.items, &mut ops, &mut signals, &mut slots);
    proof {
        assert(signals@ =~= signals_of(menu.items@));
    }
    (ops, signals)
}

} // verus!
