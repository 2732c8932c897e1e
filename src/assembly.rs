use vstd::prelude::*;

use crate::error::TrayError;
use crate::item::Menu;
use crate::native_menu::{bitmap_releases, detached_releases, release_list, NativeMenu, Release};
use crate::plan::{menu_ops, plan, signals_of, IconTarget, NativeOp};

verus! {

/// What the host does after an outcome has been recorded.
#[derive(Debug, Clone, Copy, PartialEq, Eq, Structural)]
pub enum Step {
    /// The operation succeeded; go on with the next one.
    Continue,
    /// The operation failed without harm to the menu (a submenu icon); report
    /// the error and go on with the next one.
    Skipped(TrayError),
    /// The operation failed; the build is over and fails with this error.
    Abort(TrayError),
}

/// Whether a failure of `op` leaves the build going: only attaching an icon to
/// a submenu entry may fail so.
pub open spec fn failure_tolerated(op: NativeOp) -> bool {
    match op {
        NativeOp::SetIcon { target, .. } => target is ByPosition,
        _ => false,
    }
}

/// A menu under construction. It hands out one native operation at a time,
/// records what the host reports of it, and keeps every resource acquired so
/// far, so that a failed build can give all of them back.
pub struct Assembly<T> {
    ops: Vec<NativeOp>,
    signals: Vec<T>,
    next: usize,
    menus: Vec<usize>,
    attached: Vec<bool>,
    bitmaps: Vec<usize>,
    failure: Option<TrayError>,
}

impl<T> Assembly<T> {
    /// All operations of the build, in order.
    pub closed spec fn op_seq(&self) -> Seq<NativeOp> {
        self.ops@
    }

    /// The signal collection of the finished menu.
    pub closed spec fn signal_seq(&self) -> Seq<T> {
        self.signals@
    }

    /// The index of the next operation.
    pub closed spec fn cursor(&self) -> nat {
        self.next as nat
    }

    /// The handle of each menu created so far, by slot.
    pub closed spec fn menu_seq(&self) -> Seq<usize> {
        self.menus@
    }

    /// For each menu created so far, whether it has been appended to a parent.
    pub closed spec fn attached_seq(&self) -> Seq<bool> {
        self.attached@
    }

    /// The bitmaps attached so far.
    pub closed spec fn bitmap_seq(&self) -> Seq<usize> {
        self.bitmaps@
    }

    /// The error that ended the build, if one did.
    pub closed spec fn failure(&self) -> Option<TrayError> {
        self.failure
    }

    /// The invariant of a build: it starts by creating the root menu, the
    /// cursor stays within the operations, and once past the first operation
    /// the root menu exists.
    pub open spec fn wf(&self) -> bool {
        &&& self.op_seq().len() > 0
        &&& self.op_seq()[0] == NativeOp::CreateMenu
        &&& self.cursor() <= self.op_seq().len()
        &&& self.menu_seq().len() == self.attached_seq().len()
        &&& self.cursor() > 0 ==> self.menu_seq().len() > 0
        &&& self.attached_seq().len() > 0 ==> !self.attached_seq()[0]
    }

    /// Whether an operation waits to be carried out.
    pub open spec fn is_pending(&self) -> bool {
        self.failure() is None && self.cursor() < self.op_seq().len()
    }

    /// Starts the build of `menu`.
    pub fn new(menu: Menu<T>) -> (r: Self)
        ensures
            r.wf(),
            r.op_seq() == menu_ops(menu.items@),
            r.signal_seq() == signals_of(menu.items@),
            r.cursor() == 0,
            r.menu_seq() == Seq::<usize>::empty(),
            r.attached_seq() == Seq::<bool>::empty(),
            r.bitmap_seq() == Seq::<usize>::empty(),
            r.failure() is None,
    {
        let (ops, signals) = plan(menu);
        Assembly {
            ops,
            signals,
            next: 0,
            menus: Vec::new(),
            attached: Vec::new(),
            bitmaps: Vec::new(),
            failure: None,
        }
    }

    /// The operation to carry out next, if the build goes on.
    pub fn pending(&self) -> (r: Option<&NativeOp>)
        requires
            self.wf(),
        ensures
            self.is_pending() ==> r == Some(&self.op_seq()[self.cursor() as int]),
            !self.is_pending() ==> r is None,
    {
        if self.failure.is_none() && self.next < self.ops.len() {
            Some(&self.ops[self.next])
        } else {
            None
        }
    }

    /// The handle of the menu in `slot`, once it has been created.
    pub fn menu_handle(&self, slot: usize) -> (r: Option<usize>)
        ensures
            (slot as int) < self.menu_seq().len() ==> r == Some(self.menu_seq()[slot as int]),
            (slot as int) >= self.menu_seq().len() ==> r is None,
    {
        if slot < self.menus.len() {
            Some(self.menus[slot])
        } else {
            None
        }
    }

    /// Records the outcome of the pending operation: the handle it produced (a
    /// created menu, an attached bitmap; any value for the other operations),
    /// or the status code of its failure.
    pub fn record(&mut self, outcome: Result<usize, i32>) -> (r: Step)
        requires
            old(self).wf(),
            old(self).is_pending(),
        ensures
            final(self).wf(),
            final(self).op_seq() == old(self).op_seq(),
            final(self).signal_seq() == old(self).signal_seq(),
            ({
                let op = old(self).op_seq()[old(self).cursor() as int];
                match outcome {
                    Err(code) => if failure_tolerated(op) {
                        &&& r == Step::Skipped(TrayError::Native(code))
                        &&& final(self).cursor() == old(self).cursor() + 1
                        &&& final(self).failure() is None
                        &&& final(self).menu_seq() == old(self).menu_seq()
                        &&& final(self).attached_seq() == old(self).attached_seq()
                        &&& final(self).bitmap_seq() == old(self).bitmap_seq()
                    } else {
                        &&& r == Step::Abort(TrayError::Native(code))
                        &&& final(self).cursor() == old(self).cursor()
                        &&& final(self).failure() == Some(TrayError::Native(code))
                        &&& final(self).menu_seq() == old(self).menu_seq()
                        &&& final(self).attached_seq() == old(self).attached_seq()
                        &&& final(self).bitmap_seq() == old(self).bitmap_seq()
                    },
                    Ok(h) => {
                        &&& r == Step::Continue
                        &&& final(self).cursor() == old(self).cursor() + 1
                        &&& final(self).failure() is None
                        &&& final(self).menu_seq() == (if op is CreateMenu {
                            old(self).menu_seq().push(h)
                        } else {
                            old(self).menu_seq()
                        })
                        &&& final(self).attached_seq() == (match op {
                            NativeOp::CreateMenu => old(self).attached_seq().push(false),
                            NativeOp::AppendSubmenu { submenu, .. } => if 0 < submenu && (submenu as int)
                                < old(self).attached_seq().len() {
                                old(self).attached_seq().update(submenu as int, true)
                            } else {
                                old(self).attached_seq()
                            },
                            _ => old(self).attached_seq(),
                        })
                        &&& final(self).bitmap_seq() == (if op is SetIcon {
                            old(self).bitmap_seq().push(h)
                        } else {
                            old(self).bitmap_seq()
                        })
                    },
                }
            }),
    {
        let total: usize = self.ops.len();
        assert(self.next < total);
        let tolerated = match &self.ops[self.next] {
            NativeOp::SetIcon { target, .. } => match target {
                IconTarget::ByPosition(_) => true,
                IconTarget::ById(_) => false,
            },
            _ => false,
        };
        match outcome {
            Err(code) => {
                let err = TrayError::Native(code);
                if tolerated {
                    self.next = self.next + 1;
                    Step::Skipped(err)
                } else {
                    self.failure = Some(err);
                    Step::Abort(err)
                }
            },
            Ok(h) => {
                match &self.ops[self.next] {
                    NativeOp::CreateMenu => {
                        self.menus.push(h);
                        self.attached.push(false);
                    },
                    NativeOp::AppendSubmenu { submenu, .. } => {
                        if 0 < *submenu && *submenu < self.attached.len() {
                            self.attached.set(*submenu, true);
                        }
                    },
                    NativeOp::SetIcon { .. } => {
                        self.bitmaps.push(h);
                    },
                    _ => {},
                }
                self.next = self.next + 1;
                Step::Continue
            },
        }
    }

    /// What a failed build gives back: every bitmap attached so far, in order,
    /// then every menu created so far that no parent menu owns, in slot order.
    pub fn releases(&self) -> (r: Vec<Release>)
        requires
            self.wf(),
        ensures
            r@ == bitmap_releases(self.bitmap_seq()) + detached_releases(
                self.menu_seq(),
                self.attached_seq(),
            ),
    {
        release_list(&self.bitmaps, &self.menus, &self.attached)
    }

    /// Ends a build that has nothing pending: the finished menu, or the error
    /// that ended it with the resources to give back.
    pub fn finish(self) -> (r: Result<NativeMenu<T>, (TrayError, Vec<Release>)>)
        requires
            self.wf(),
            !self.is_pending(),
        ensures
            self.failure() is None ==> (r matches Ok(m) && m.wf() && m.menu_seq() == self.menu_seq()
                && m.attached_seq() == self.attached_seq() && m.signal_seq() == self.signal_seq()
                && m.bitmap_seq() == self.bitmap_seq()),
            self.failure() matches Some(e) ==> (r matches Err((e2, rel)) && e2 == e
                && rel@ == bitmap_releases(self.bitmap_seq()) + detached_releases(
                self.menu_seq(),
                self.attached_seq(),
            )),
    {
        match self.failure {
            Some(e) => {
                let rel = self.releases();
                Err((e, rel))
            },
            None => {
                Ok(NativeMenu::from_parts(self.menus, self.attached, self.signals, self.bitmaps))
            },
        }
    }
}

} // verus!
