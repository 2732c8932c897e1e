use vstd::prelude::*;

verus! {

/// A native resource that must be given back to the windowing system.
#[derive(Debug, Clone, Copy, PartialEq, Eq, Structural)]
pub enum Release {
    DeleteBitmap(usize),
    DestroyMenu(usize),
}

/// The releases of `bitmaps`, in order.
pub open spec fn bitmap_releases(bitmaps: Seq<usize>) -> Seq<Release> {
    bitmaps.map_values(|b: usize| Release::DeleteBitmap(b))
}

/// The releases, in slot order, of the menus in `menus` that were never
/// appended to a parent menu.
pub open spec fn detached_releases(menus: Seq<usize>, attached: Seq<bool>) -> Seq<Release>
    decreases menus.len(),
{
    if menus.len() == 0 {
        Seq::empty()
    } else {
        let k = menus.len() - 1;
        let rest = detached_releases(menus.drop_last(), attached);
        if attached[k] {
            rest
        } else {
            rest.push(Release::DestroyMenu(menus[k]))
        }
    }
}

/// What gives back a set of native resources: every bitmap, in order, then
/// every menu that no parent menu owns, in slot order. A menu appended to a
/// parent goes with that parent.
pub(crate) fn release_list(bitmaps: &Vec<usize>, menus: &Vec<usize>, attached: &Vec<bool>) -> (r: Vec<Release>)
    requires
        menus@.len() == attached@.len(),
    ensures
        r@ == bitmap_releases(bitmaps@) + detached_releases(menus@, attached@),
{
    let mut out: Vec<Release> = Vec::new();
    let mut i: usize = 0;
    while i < bitmaps.len()
        invariant
            i <= bitmaps@.len(),
            out@ == bitmap_releases(bitmaps@.subrange(0, i as int)),
        decreases bitmaps@.len() - i,
    {
        out.push(Release::DeleteBitmap(bitmaps[i]));
        proof {
            assert(out@ =~= bitmap_releases(bitmaps@.subrange(0, i + 1)));
        }
        i = i + 1;
    }
    proof {
        assert(bitmaps@.subrange(0, i as int) =~= bitmaps@);
    }
    let ghost head = out@;
    let mut k: usize = 0;
    while k < menus.len()
        invariant
            menus@.len() == attached@.len(),
            k <= menus@.len(),
            out@ == head + detached_releases(menus@.subrange(0, k as int), attached@),
        decreases menus@.len() - k,
    {
        proof {
            assert(menus@.subrange(0, k + 1).drop_last() =~= menus@.subrange(0, k as int));
        }
        if !attached[k] {
            out.push(Release::DestroyMenu(menus[k]));
        }
        proof {
            assert(out@ =~= head + detached_releases(menus@.subrange(0, k + 1), attached@));
        }
        k = k + 1;
    }
    proof {
        assert(menus@.subrange(0, k as int) =~= menus@);
    }
    out
}

/// A built native menu: its menus by slot (the root in slot 0) with whether
/// each was appended to a parent, the signal of each item id, and the bitmaps
/// attached to its entries.
pub struct NativeMenu<T> {
    menus: Vec<usize>,
    attached: Vec<bool>,
    signals: Vec<T>,
    bitmaps: Vec<usize>,
}

impl<T> NativeMenu<T> {
    /// The menu handles, by slot.
    pub closed spec fn menu_seq(&self) -> Seq<usize> {
        self.menus@
    }

    /// For each menu, whether it was appended to a parent menu.
    pub closed spec fn attached_seq(&self) -> Seq<bool> {
        self.attached@
    }

    /// The root menu handle.
    pub open spec fn root(&self) -> usize {
        self.menu_seq()[0]
    }

    /// There is a root menu, which no parent owns.
    pub open spec fn wf(&self) -> bool {
        &&& self.menu_seq().len() > 0
        &&& self.attached_seq().len() == self.menu_seq().len()
        &&& !self.attached_seq()[0]
    }

    /// The signal collection; the index of a signal is its item id.
    pub closed spec fn signal_seq(&self) -> Seq<T> {
        self.signals@
    }

    /// The bitmaps owned by this menu, in the order they were attached.
    pub closed spec fn bitmap_seq(&self) -> Seq<usize> {
        self.bitmaps@
    }

    pub(crate) fn from_parts(menus: Vec<usize>, attached: Vec<bool>, signals: Vec<T>, bitmaps: Vec<usize>) -> (r: Self)
        requires
            menus@.len() > 0,
            attached@.len() == menus@.len(),
            !attached@[0],
        ensures
            r.wf(),
            r.menu_seq() == menus@,
            r.attached_seq() == attached@,
            r.signal_seq() == signals@,
            r.bitmap_seq() == bitmaps@,
    {
        NativeMenu { menus, attached, signals, bitmaps }
    }

    /// The root menu handle, to show the menu.
    pub fn handle(&self) -> (r: usize)
        requires
            self.wf(),
        ensures
            r == self.root(),
    {
        self.menus[0]
    }

    /// The number of signals, that is of buttons.
    pub fn signal_count(&self) -> (r: usize)
        ensures
            r == self.signal_seq().len(),
    {
        self.signals.len()
    }

    /// The signal of the button with item id `id`, if there is one.
    pub fn map(&self, id: u16) -> (r: Option<&T>)
        ensures
            (id as int) < self.signal_seq().len() ==> r == Some(&self.signal_seq()[id as int]),
            (id as int) >= self.signal_seq().len() ==> r is None,
    {
        let i: usize = id as usize;
        if i < self.signals.len() {
            Some(&self.signals[i])
        } else {
            None
        }
    }

    /// What tearing this menu down releases: every bitmap once, in order, then
    /// the root menu and any other menu that no parent owns. Each release is
    /// carried out whatever became of the others.
    pub fn releases(&self) -> (r: Vec<Release>)
        requires
            self.wf(),
        ensures
            r@ == bitmap_releases(self.bitmap_seq()) + detached_releases(self.menu_seq(), self.attached_seq()),
            r@.contains(Release::DestroyMenu(self.root())),
    {
        let r = release_list(&self.bitmaps, &self.menus, &self.attached);
        proof {
            lemma_detached_keeps_root(self.menus@, self.attached@);
            let b = bitmap_releases(self.bitmaps@);
            let d = detached_releases(self.menus@, self.attached@);
            let j = choose|j: int| 0 <= j < d.len() && d[j] == Release::DestroyMenu(self.menus@[0]);
            assert(r@[b.len() + j] == Release::DestroyMenu(self.menus@[0]));
        }
        r
    }
}

proof fn lemma_detached_keeps_root(menus: Seq<usize>, attached: Seq<bool>)
    requires
        menus.len() > 0,
        attached.len() >= menus.len(),
        !attached[0],
    ensures
        detached_releases(menus, attached).contains(Release::DestroyMenu(menus[0])),
    decreases menus.len(),
{
    let k = menus.len() - 1;
    if k == 0 {
        assert(detached_releases(menus.drop_last(), attached) == Seq::<Release>::empty());
        assert(detached_releases(menus, attached)[0] == Release::DestroyMenu(menus[0]));
    } else {
        lemma_detached_keeps_root(menus.drop_last(), attached);
        let rest = detached_releases(menus.drop_last(), attached);
        let j = choose|j: int| 0 <= j < rest.len() && rest[j] == Release::DestroyMenu(menus[0]);
        assert(detached_releases(menus, attached)[j] == Release::DestroyMenu(menus[0]));
    }
}

} // verus!
