use vstd::prelude::*;

use crate::registry::{Visibility, WindowHandle, WindowRegistry};

verus! {

/// Where a label stands in the window lifecycle.
#[derive(Clone, Copy, Debug, PartialEq, Eq, Structural)]
pub enum WindowState {
    Absent,
    Hidden,
    Visible,
}

/// An intent sent to the controller.
#[derive(Clone, Copy, Debug, PartialEq, Eq, Structural)]
pub enum Operation {
    OpenOrShow,
    Close,
}

/// What the host runtime must do for one operation.
#[derive(Debug)]
pub enum HostCall {
    /// Build a new window with this label showing `url`, set up as `config` says.
    Create { label: String, url: String, config: WindowConfig },
    /// Show the existing window and give it focus.
    ShowAndFocus { label: String },
    /// Hide the existing window without destroying it.
    Hide { label: String },
    /// Nothing to do.
    Nothing,
}

/// How a new window is set up. Sizes are in logical pixels.
#[derive(Debug)]
pub struct WindowConfig {
    pub title: String,
    pub width: u32,
    pub height: u32,
    pub min_width: u32,
    pub min_height: u32,
    pub max_width: u32,
    pub max_height: u32,
    pub resizable: bool,
    pub centered: bool,
    pub decorated: bool,
    pub transparent: bool,
    pub always_on_top: bool,
    pub skip_taskbar: bool,
    pub visible: bool,
}

/// The fixed set-up of every window the controller builds: 400 by 600,
/// resizable between 350 by 400 and 600 by 800, centered, decorated, opaque,
/// always on top, on the taskbar, and visible from the start.
pub open spec fn is_window_config(c: WindowConfig) -> bool {
    &&& c.title@ == "Chat - RequestCenter"@
    &&& c.width == 400 && c.height == 600
    &&& c.min_width == 350 && c.min_height == 400
    &&& c.max_width == 600 && c.max_height == 800
    &&& c.resizable && c.centered && c.decorated && !c.transparent
    &&& c.always_on_top && !c.skip_taskbar && c.visible
}

/// The set-up of a new window.
pub fn window_config() -> (r: WindowConfig)
    ensures
        is_window_config(r),
{
    WindowConfig {
        title: String::from_str("Chat - RequestCenter"),
        width: 400,
        height: 600,
        min_width: 350,
        min_height: 400,
        max_width: 600,
        max_height: 800,
        resizable: true,
        centered: true,
        decorated: true,
        transparent: false,
        always_on_top: true,
        skip_taskbar: false,
        visible: true,
    }
}

/// The reply to one operation.
#[derive(Debug)]
pub struct ControlResponse {
    pub success: bool,
    pub message: Option<String>,
    pub error: Option<String>,
}

/// Label of the chat window.
pub open spec fn chat_window_label_spec() -> Seq<char> {
    "chat-window"@
}

pub open spec fn opened_message() -> Seq<char> {
    "Janela de chat aberta via Tauri desktop"@
}

pub open spec fn closed_message() -> Seq<char> {
    "Janela de chat fechada via Tauri desktop"@
}

/// The state of `label` in a registry.
pub open spec fn state_of(m: Map<Seq<char>, Visibility>, label: Seq<char>) -> WindowState {
    if !m.contains_key(label) {
        WindowState::Absent
    } else if m[label] == Visibility::Visible {
        WindowState::Visible
    } else {
        WindowState::Hidden
    }
}

/// Whether `op` on `label` makes the host build a new window.
pub open spec fn constructs(m: Map<Seq<char>, Visibility>, op: Operation, label: Seq<char>) -> bool {
    op == Operation::OpenOrShow && !m.contains_key(label)
}

/// Whether `op` on `label` needs any host call at all.
pub open spec fn needs_host(m: Map<Seq<char>, Visibility>, op: Operation, label: Seq<char>) -> bool {
    op == Operation::OpenOrShow || m.contains_key(label)
}

/// The registry after `op` on `label`, given whether the host call succeeded.
/// An existing window ends visible whatever its show or focus reported; a
/// failed construction or a failed hide leaves the registry as it was.
pub open spec fn step(
    m: Map<Seq<char>, Visibility>,
    op: Operation,
    label: Seq<char>,
    host_ok: bool,
) -> Map<Seq<char>, Visibility> {
    match op {
        Operation::OpenOrShow => if m.contains_key(label) || host_ok {
            m.insert(label, Visibility::Visible)
        } else {
            m
        },
        Operation::Close => if m.contains_key(label) && host_ok {
            m.insert(label, Visibility::Hidden)
        } else {
            m
        },
    }
}

/// Whether `op` on `label` is reported as a success: always, but for a
/// failed construction of an absent window or a failed hide of a present one.
pub open spec fn succeeds(
    m: Map<Seq<char>, Visibility>,
    op: Operation,
    label: Seq<char>,
    host_ok: bool,
) -> bool {
    match op {
        Operation::OpenOrShow => m.contains_key(label) || host_ok,
        Operation::Close => !m.contains_key(label) || host_ok,
    }
}

/// The exact host call that `op` on `label` requires, given the URL new
/// windows show.
pub open spec fn is_planned_call(
    c: HostCall,
    m: Map<Seq<char>, Visibility>,
    op: Operation,
    label: Seq<char>,
    url: Seq<char>,
) -> bool {
    match c {
        HostCall::Create { label: l, url: u, config } => constructs(m, op, label) && l@ == label
            && u@ == url && is_window_config(config),
        HostCall::ShowAndFocus { label: l } => op == Operation::OpenOrShow && m.contains_key(label)
            && l@ == label,
        HostCall::Hide { label: l } => op == Operation::Close && m.contains_key(label) && l@
            == label,
        HostCall::Nothing => !needs_host(m, op, label),
    }
}

/// Decides, for each intent, what the window must become and what the host
/// must do; owns the registry of live windows.
pub struct WindowController {
    registry: WindowRegistry,
    content_root: String,
}

impl WindowController {
    /// The registry as a map from label to visibility.
    pub closed spec fn windows(&self) -> Map<Seq<char>, Visibility> {
        self.registry@
    }

    /// The URL prefix of the content new windows show.
    pub closed spec fn root(&self) -> Seq<char> {
        self.content_root@
    }

    pub closed spec fn wf(&self) -> bool {
        self.registry.wf()
    }

    /// The URL a new window with `label` shows: the content root, a slash,
    /// then the label.
    pub open spec fn url_for(&self, label: Seq<char>) -> Seq<char> {
        self.root() + "/"@ + label
    }

    /// A controller with no window, whose windows show content under
    /// `content_root`.
    pub fn new(content_root: String) -> (r: Self)
        ensures
            r.wf(),
            r.windows() == Map::<Seq<char>, Visibility>::empty(),
            r.root() == content_root@,
    {
        WindowController { registry: WindowRegistry::new(), content_root }
    }

    /// The current state of `label`.
    pub fn state(&self, label: &String) -> (r: WindowState)
        requires
            self.wf(),
        ensures
            r == state_of(self.windows(), label@),
    {
        match self.registry.lookup(label) {
            None => WindowState::Absent,
            Some(h) => match h.visibility {
                Visibility::Visible => WindowState::Visible,
                Visibility::Hidden => WindowState::Hidden,
            },
        }
    }

    /// The host call that `op` on `label` requires now.
    pub fn plan(&self, op: Operation, label: &String) -> (r: HostCall)
        requires
            self.wf(),
        ensures
            is_planned_call(r, self.windows(), op, label@, self.url_for(label@)),
    {
        let present = self.registry.lookup(label).is_some();
        match op {
            Operation::OpenOrShow => {
                if present {
                    HostCall::ShowAndFocus { label: label.clone() }
                } else {
                    let mut url = self.content_root.clone();
                    url.append("/");
                    url.append(label.as_str());
                    HostCall::Create { label: label.clone(), url, config: window_config() }
                }
            },
            Operation::Close => {
                if present {
                    HostCall::Hide { label: label.clone() }
                } else {
                    HostCall::Nothing
                }
            },
        }
    }

    /// Records what the host reported for the call that `plan` gave for the
    /// same `op` and `label`, and builds the reply. An existing window ends
    /// visible whatever its show or focus reported. A failed construction or
    /// a failed hide leaves the registry unchanged and is reported with the
    /// host's words.
    pub fn apply(&mut self, op: Operation, label: &String, outcome: Result<(), String>) -> (r:
        ControlResponse)
        requires
            old(self).wf(),
        ensures
            final(self).wf(),
            final(self).root() == old(self).root(),
            final(self).windows() == step(old(self).windows(), op, label@, outcome is Ok),
            r.success == succeeds(old(self).windows(), op, label@, outcome is Ok),
            r.success ==> r.error is None && r.message is Some && r.message->Some_0@ == (
            if op == Operation::OpenOrShow {
                opened_message()
            } else {
                closed_message()
            }),
            !r.success ==> r.message is None && r.error is Some && outcome is Err
                && r.error->Some_0 == outcome->Err_0,
    {
        let present = self.registry.lookup(label).is_some();
        match op {
            Operation::OpenOrShow => {
                if !present {
                    if let Err(e) = outcome {
                        return ControlResponse { success: false, message: None, error: Some(e) };
                    }
                }
                self.registry.insert(
                    WindowHandle { label: label.clone(), visibility: Visibility::Visible },
                );
                ControlResponse {
                    success: true,
                    message: Some(String::from_str("Janela de chat aberta via Tauri desktop")),
                    error: None,
                }
            },
            Operation::Close => {
                if present {
                    if let Err(e) = outcome {
                        return ControlResponse { success: false, message: None, error: Some(e) };
                    }
                    let _ = self.registry.set_visibility(label, Visibility::Hidden);
                }
                ControlResponse {
                    success: true,
                    message: Some(String::from_str("Janela de chat fechada via Tauri desktop")),
                    error: None,
                }
            },
        }
    }

    /// Drops what is known of `label` once the host has destroyed its window,
    /// so that the next open builds it again.
    pub fn forget(&mut self, label: &String)
        requires
            old(self).wf(),
        ensures
            final(self).wf(),
            final(self).root() == old(self).root(),
            final(self).windows() == old(self).windows().remove(label@),
    {
        self.registry.remove(label);
    }
}

/// The registry after `n` successful opens of `label`.
pub open spec fn opened_times(m: Map<Seq<char>, Visibility>, label: Seq<char>, n: nat) -> Map<
    Seq<char>,
    Visibility,
>
    decreases n,
{
    if n == 0 {
        m
    } else {
        step(opened_times(m, label, (n - 1) as nat), Operation::OpenOrShow, label, true)
    }
}

/// How many windows the host builds over `n` successful opens of `label`.
pub open spec fn constructions_over(m: Map<Seq<char>, Visibility>, label: Seq<char>, n: nat) -> nat
    decreases n,
{
    if n == 0 {
        0
    } else {
        constructions_over(m, label, (n - 1) as nat) + if constructs(
            opened_times(m, label, (n - 1) as nat),
            Operation::OpenOrShow,
            label,
        ) {
            1nat
        } else {
            0nat
        }
    }
}

/// Opening a window one or more times in a row leaves exactly the registry
/// of a single open, with the window visible, and builds the window once if
/// it was absent and never otherwise.
pub proof fn lemma_open_is_idempotent(m: Map<Seq<char>, Visibility>, label: Seq<char>, n: nat)
    requires
        n >= 1,
    ensures
        opened_times(m, label, n) == m.insert(label, Visibility::Visible),
        state_of(opened_times(m, label, n), label) == WindowState::Visible,
        constructions_over(m, label, n) == if m.contains_key(label) {
            0nat
        } else {
            1nat
        },
    decreases n,
{
    let prev = (n - 1) as nat;
    if n > 1 {
        lemma_open_is_idempotent(m, label, prev);
        assert(m.insert(label, Visibility::Visible).insert(label, Visibility::Visible) =~= m.insert(
            label,
            Visibility::Visible,
        ));
    } else {
        assert(opened_times(m, label, prev) == m);
        assert(constructions_over(m, label, prev) == 0);
    }
}

/// Of two opens of one label, serialized in either order, at most one
/// builds a window: once the first has built it, the second reuses it,
/// succeeds and leaves it visible whatever the host reports for it.
pub proof fn lemma_single_construction(
    m: Map<Seq<char>, Visibility>,
    label: Seq<char>,
    first_ok: bool,
    second_ok: bool,
)
    requires
        constructs(m, Operation::OpenOrShow, label) && first_ok,
    ensures
        ({
            let after_first = step(m, Operation::OpenOrShow, label, first_ok);
            &&& succeeds(m, Operation::OpenOrShow, label, first_ok)
            &&& !constructs(after_first, Operation::OpenOrShow, label)
            &&& succeeds(after_first, Operation::OpenOrShow, label, second_ok)
            &&& step(after_first, Operation::OpenOrShow, label, second_ok) == after_first
            &&& state_of(after_first, label) == WindowState::Visible
            &&& after_first.dom() == m.dom().insert(label)
        }),
{
    let after_first = step(m, Operation::OpenOrShow, label, first_ok);
    assert(step(after_first, Operation::OpenOrShow, label, second_ok) =~= after_first);
}

/// A destroyed window is built again by the next open.
pub proof fn lemma_open_after_forget_constructs(m: Map<Seq<char>, Visibility>, label: Seq<char>)
    ensures
        constructs(m.remove(label), Operation::OpenOrShow, label),
{
}

/// Open, close, then open again: the second open reuses the hidden window
/// instead of building one, and ends where the first open did.
pub proof fn lemma_reopen_reuses_window(m: Map<Seq<char>, Visibility>, label: Seq<char>)
    ensures
        ({
            let opened = step(m, Operation::OpenOrShow, label, true);
            let closed = step(opened, Operation::Close, label, true);
            &&& state_of(closed, label) == WindowState::Hidden
            &&& !constructs(closed, Operation::OpenOrShow, label)
            &&& step(closed, Operation::OpenOrShow, label, true) == opened
        }),
{
    let opened = step(m, Operation::OpenOrShow, label, true);
    let closed = step(opened, Operation::Close, label, true);
    assert(step(closed, Operation::OpenOrShow, label, true) =~= opened);
}

/// Closing a label that has no window is a success that changes nothing,
/// whatever the host would have reported.
pub proof fn lemma_close_absent_is_noop(m: Map<Seq<char>, Visibility>, label: Seq<char>, host_ok: bool)
    requires
        !m.contains_key(label),
    ensures
        step(m, Operation::Close, label, host_ok) == m,
        succeeds(m, Operation::Close, label, host_ok),
        !needs_host(m, Operation::Close, label),
{
}

/// The label of the chat window.
pub fn chat_window_label() -> (r: String)
    ensures
        r@ == chat_window_label_spec(),
{
    String::from_str("chat-window")
}

} // verus!
