use vstd::prelude::*;

verus! {

/// The label under which the host framework registers the main window.
pub const MAIN_WINDOW_LABEL: &'static str = "main";

/// Whether the main window is on screen.
#[derive(Clone, Copy, Debug, PartialEq, Eq, Structural)]
pub enum Visibility {
    Hidden,
    Visible,
}

/// One operation on the main window, as the host framework performs it.
#[derive(Clone, Copy, Debug, PartialEq, Eq, Structural)]
pub enum WindowOp {
    /// Move the window to the top-center anchor of the screen.
    MoveToTopCenter,
    Show,
    Focus,
    Hide,
}

/// What a window looks like from outside: on screen or not, holding focus or
/// not, and standing at the top-center anchor or not.
#[derive(Clone, Copy, Debug, PartialEq, Eq, Structural)]
pub struct MainWindow {
    pub visible: bool,
    pub focused: bool,
    pub at_top_center: bool,
}

/// The operations that toggling performs, given what was observed of the main
/// window: nothing when no window is registered, hiding a visible window, and
/// anchoring, showing and focusing a hidden one.
pub open spec fn toggle_ops(observed: Option<Visibility>) -> Seq<WindowOp> {
    match observed {
        None => seq![],
        Some(Visibility::Visible) => seq![WindowOp::Hide],
        Some(Visibility::Hidden) => seq![WindowOp::MoveToTopCenter, WindowOp::Show, WindowOp::Focus],
    }
}

/// The operations that showing performs: showing and focusing whatever the
/// window's state, nothing when no window is registered.
pub open spec fn show_ops(observed: Option<Visibility>) -> Seq<WindowOp> {
    match observed {
        None => seq![],
        Some(_) => seq![WindowOp::Show, WindowOp::Focus],
    }
}

/// Decides what toggling the main window does. `observed` is `None` when no
/// window is registered under the main label; a window whose visibility
/// cannot be read counts as hidden.
pub fn toggle_window(observed: Option<Visibility>) -> (ops: Vec<WindowOp>)
    ensures
        ops@ == toggle_ops(observed),
{
    match observed {
        None => Vec::new(),
        Some(Visibility::Visible) => vec![WindowOp::Hide],
        Some(Visibility::Hidden) => vec![WindowOp::MoveToTopCenter, WindowOp::Show, WindowOp::Focus],
    }
}

/// Decides what showing the main window does. `observed` is `None` when no
/// window is registered under the main label.
pub fn show_window(observed: Option<Visibility>) -> (ops: Vec<WindowOp>)
    ensures
        ops@ == show_ops(observed),
{
    match observed {
        None => Vec::new(),
        Some(_) => vec![WindowOp::Show, WindowOp::Focus],
    }
}

impl MainWindow {
    /// The visibility that observing this window reports.
    pub open spec fn visibility_spec(self) -> Visibility {
        if self.visible {
            Visibility::Visible
        } else {
            Visibility::Hidden
        }
    }

    /// The window after one operation. Hiding also takes the focus away.
    pub open spec fn after(self, op: WindowOp) -> MainWindow {
        match op {
            WindowOp::MoveToTopCenter => MainWindow { at_top_center: true, ..self },
            WindowOp::Show => MainWindow { visible: true, ..self },
            WindowOp::Focus => MainWindow { focused: true, ..self },
            WindowOp::Hide => MainWindow { visible: false, focused: false, ..self },
        }
    }

    /// The window after a sequence of operations, performed first to last.
    pub open spec fn after_all(self, ops: Seq<WindowOp>) -> MainWindow
        decreases ops.len(),
    {
        if ops.len() == 0 {
            self
        } else {
            self.after(ops[0]).after_all(ops.drop_first())
        }
    }

    /// The window after `n` toggles, each deciding on what it observes.
    pub open spec fn after_toggles(self, n: nat) -> MainWindow
        decreases n,
    {
        if n == 0 {
            self
        } else {
            self.after_all(toggle_ops(Some(self.visibility_spec()))).after_toggles((n - 1) as nat)
        }
    }

    /// The window as it stands right after start-up: hidden, unfocused, not
    /// yet anchored.
    pub fn hidden() -> (w: MainWindow)
        ensures
            !w.visible,
            !w.focused,
            !w.at_top_center,
    {
        MainWindow { visible: false, focused: false, at_top_center: false }
    }

    /// What an observer of this window sees of its visibility.
    pub fn visibility(&self) -> (v: Visibility)
        ensures
            v == self.visibility_spec(),
    {
        if self.visible {
            Visibility::Visible
        } else {
            Visibility::Hidden
        }
    }

    /// Performs one operation on this window.
    pub fn apply(&mut self, op: WindowOp)
        ensures
            *final(self) == old(self).after(op),
    {
        match op {
            WindowOp::MoveToTopCenter => self.at_top_center = true,
            WindowOp::Show => self.visible = true,
            WindowOp::Focus => self.focused = true,
            WindowOp::Hide => {
                self.visible = false;
                self.focused = false;
            },
        }
    }

    /// Performs the operations of `ops` on this window, first to last.
    pub fn apply_all(&mut self, ops: &Vec<WindowOp>)
        ensures
            *final(self) == old(self).after_all(ops@),
    {
        let ghost start = *self;
        let mut i: usize = 0;
        assert(ops@.skip(0) =~= ops@);
        while i < ops.len()
            invariant
                i <= ops@.len(),
                start.after_all(ops@) == self.after_all(ops@.skip(i as int)),
            decreases ops@.len() - i,
        {
            proof {
                let rest = ops@.skip(i as int);
                assert(rest.drop_first() =~= ops@.skip(i + 1));
                assert(rest[0] == ops@[i as int]);
            }
            self.apply(ops[i]);
            i = i + 1;
        }
        proof {
            assert(ops@.skip(i as int) =~= Seq::<WindowOp>::empty());
        }
    }
}

/// Toggling a hidden window anchors it at the top center, shows it and gives
/// it the focus; toggling a visible window hides it.
pub proof fn lemma_toggle_flips(w: MainWindow)
    ensures
        !w.visible ==> {
            let t = w.after_all(toggle_ops(Some(w.visibility_spec())));
            t.visible && t.focused && t.at_top_center
        },
        w.visible ==> !w.after_all(toggle_ops(Some(w.visibility_spec()))).visible,
{
    reveal_with_fuel(MainWindow::after_all, 4);
}

/// Toggling alternates the window between its two states: after `n` toggles
/// it is in the state it started in when `n` is even, in the other when `n`
/// is odd. Starting hidden, it is visible exactly after an odd number.
pub proof fn lemma_toggles_alternate(w: MainWindow, n: nat)
    ensures
        w.after_toggles(n).visible == (w.visible != (n % 2 == 1)),
        !w.visible ==> (w.after_toggles(n).visible <==> n % 2 == 1),
    decreases n,
{
    if n > 0 {
        lemma_toggle_flips(w);
        let next = w.after_all(toggle_ops(Some(w.visibility_spec())));
        lemma_toggles_alternate(next, (n - 1) as nat);
    }
}

/// Showing leaves the window visible and focused, whatever its state was.
pub proof fn lemma_show_makes_visible(w: MainWindow)
    ensures
        w.after_all(show_ops(Some(w.visibility_spec()))).visible,
        w.after_all(show_ops(Some(w.visibility_spec()))).focused,
{
    reveal_with_fuel(MainWindow::after_all, 3);
}

/// Toggling when no window is registered performs nothing, so the window's
/// state is what it was.
pub proof fn lemma_toggle_without_window_is_noop(w: MainWindow)
    ensures
        toggle_ops(None).len() == 0,
        w.after_all(toggle_ops(None)) == w,
{
}

} // verus!
