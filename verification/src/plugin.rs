//! The plugin: what it tells the host about itself, and the register of the
//! editor instances that it has created.

use vstd::prelude::*;
use std::collections::HashMap;
use crate::text::same_text;

verus! {

/// What the plugin tells the host about itself.
#[derive(Clone, Copy, PartialEq, Eq, Debug)]
pub struct PluginMetadata {
    pub id: &'static str,
    pub name: &'static str,
    pub version: &'static str,
    pub author: &'static str,
    pub description: &'static str,
}

/// An editor that the plugin offers.
#[derive(Clone, PartialEq, Eq, Debug)]
pub struct EditorMetadata {
    pub id: &'static str,
    pub display_name: &'static str,
    /// The file types that the editor opens, by their extension.
    pub supported_file_types: Vec<&'static str>,
}

/// The side of the status bar on which a button sits.
#[derive(Clone, Copy, PartialEq, Eq, Structural, Debug)]
pub enum StatusbarPosition {
    Left,
    Right,
}

/// What pressing a status bar button does.
#[derive(Clone, Copy, PartialEq, Eq, Debug)]
pub enum ButtonAction {
    /// Opens the editor of this name.
    OpenEditor(&'static str),
    /// Calls the plugin back; the terminal window plugin then opens a
    /// terminal window as `toggle_terminal` lays it out.
    Custom,
}

/// A button that the plugin puts on the host's status bar.
#[derive(Clone, Copy, PartialEq, Eq, Debug)]
pub struct StatusbarButton {
    pub id: &'static str,
    pub tooltip: &'static str,
    pub position: StatusbarPosition,
    pub priority: i32,
    pub action: ButtonAction,
}

/// How a terminal window is to be opened. Lengths are in pixels.
#[derive(Clone, Copy, PartialEq, Eq, Structural, Debug)]
pub struct WindowPlan {
    pub x: u32,
    pub y: u32,
    pub width: u32,
    pub height: u32,
    pub min_width: u32,
    pub min_height: u32,
    pub resizable: bool,
    /// The title bar is transparent and shows no title.
    pub transparent_titlebar: bool,
    /// The window draws its own decorations.
    pub client_decorations: bool,
}

/// Why the plugin made no editor.
#[derive(Clone, Copy, PartialEq, Eq, Structural, Debug)]
pub enum PluginError {
    /// The plugin offers no editor of the name asked for.
    EditorNotFound,
    /// Every instance number has been given out.
    InstancesExhausted,
    /// The terminal of the new instance did not start.
    StartFailed,
    /// The plugin offers no editors at all.
    EditorsUnsupported,
}

/// The name of the one editor that the plugin offers.
pub open spec fn editor_name() -> Seq<char> {
    "terminal-editor"@
}

/// The name of the one editor that the plugin offers.
pub fn editor_id() -> (id: &'static str)
    ensures
        id@ == editor_name(),
{
    "terminal-editor"
}

/// The terminal plugin: the register of the editor instances that it has
/// created, by their number, and the number that the next one gets. Its
/// view is the register.
pub struct TerminalPlugin {
    editors: HashMap<usize, TerminalEditorWrapper>,
    next_editor_id: usize,
}

impl View for TerminalPlugin {
    type V = Map<usize, TerminalEditorWrapper>;

    closed spec fn view(&self) -> Map<usize, TerminalEditorWrapper> {
        self.editors@
    }
}

impl Default for TerminalPlugin {
    /// A plugin that has created no instance.
    fn default() -> (p: TerminalPlugin)
        ensures
            p.wf(),
            p@ == Map::<usize, TerminalEditorWrapper>::empty(),
            p.next() == 0,
    {
        TerminalPlugin::new()
    }
}

/// Why a new instance of the editor named `name` is or is not made, from
/// the number that it would get and from whether its terminal has started:
/// `None` if it is made.
pub open spec fn refusal(name: Seq<char>, next: nat, started: bool) -> Option<PluginError> {
    if name != editor_name() {
        Some(PluginError::EditorNotFound)
    } else if next >= usize::MAX {
        Some(PluginError::InstancesExhausted)
    } else if !started {
        Some(PluginError::StartFailed)
    } else {
        None
    }
}

impl TerminalPlugin {
    /// The number that the next instance gets.
    pub closed spec fn next(&self) -> nat {
        self.next_editor_id as nat
    }

    /// The plugin's invariant: the register is finite, every number in it is
    /// below the next one, so that no number is given out twice, and is
    /// registered with its own wrapper.
    pub open spec fn wf(&self) -> bool {
        &&& self.next() <= usize::MAX
        &&& self@.dom().finite()
        &&& forall|id: usize| #[trigger]
            self@.dom().contains(id) ==> id < self.next() && self@[id] == wrapper_of(id)
    }

    /// A plugin that has created no instance; the first one gets number 0.
    pub fn new() -> (p: TerminalPlugin)
        ensures
            p.wf(),
            p@ == Map::<usize, TerminalEditorWrapper>::empty(),
            p.next() == 0,
    {
        TerminalPlugin { editors: HashMap::new(), next_editor_id: 0 }
    }

    /// A plugin that has created no instance and gives the next one the
    /// number `next`: for a host that loads the plugin again and wants the
    /// numbers of earlier instances left alone.
    pub fn resuming(next: usize) -> (p: TerminalPlugin)
        ensures
            p.wf(),
            p@ == Map::<usize, TerminalEditorWrapper>::empty(),
            p.next() == next,
    {
        TerminalPlugin { editors: HashMap::new(), next_editor_id: next }
    }

    /// The file types that the plugin opens, by their extension: none.
    pub fn file_types(&self) -> (types: Vec<&'static str>)
        ensures
            types@.len() == 0,
    {
        Vec::new()
    }

    /// The plugin was loaded: there is nothing to prepare.
    pub fn on_load(&mut self)
        ensures
            *final(self) == *old(self),
    {
    }

    /// What the plugin tells the host about itself.
    pub fn metadata(&self) -> (m: PluginMetadata)
        ensures
            m.id@ == "com.pulsar.terminal"@,
            m.name@ == "Terminal"@,
            m.version@ == "0.1.0"@,
            m.author@ == "Pulsar"@,
            m.description@ == "Integrated terminal emulator"@,
    {
        PluginMetadata {
            id: "com.pulsar.terminal",
            name: "Terminal",
            version: "0.1.0",
            author: "Pulsar",
            description: "Integrated terminal emulator",
        }
    }

    /// The plugin's status bar buttons: one, on the left, that opens the
    /// terminal editor.
    pub fn statusbar_buttons(&self) -> (buttons: Vec<StatusbarButton>)
        ensures
            buttons@.len() == 1,
            buttons@[0].id@ == "terminal.open"@,
            buttons@[0].tooltip@ == "Open Terminal"@,
            buttons@[0].position == StatusbarPosition::Left,
            buttons@[0].priority == 50,
            buttons@[0].action matches ButtonAction::OpenEditor(name) && name@ == editor_name(),
    {
        let mut buttons: Vec<StatusbarButton> = Vec::new();
        buttons.push(
            StatusbarButton {
                id: "terminal.open",
                tooltip: "Open Terminal",
                position: StatusbarPosition::Left,
                priority: 50,
                action: ButtonAction::OpenEditor(editor_id()),
            },
        );
        buttons
    }

    /// The editors that the plugin offers: the terminal editor, which opens
    /// no file type.
    pub fn editors(&self) -> (editors: Vec<EditorMetadata>)
        ensures
            editors@.len() == 1,
            editors@[0].id@ == editor_name(),
            editors@[0].display_name@ == "Terminal"@,
            editors@[0].supported_file_types@.len() == 0,
    {
        let mut editors: Vec<EditorMetadata> = Vec::new();
        editors.push(
            EditorMetadata {
                id: editor_id(),
                display_name: "Terminal",
                supported_file_types: Vec::new(),
            },
        );
        editors
    }

    /// Says whether an instance of the editor named `name` can be made,
    /// before its terminal is started: only the terminal editor exists, and
    /// a number must be left for the instance.
    pub fn check_editor(&self, name: &str) -> (r: Result<(), PluginError>)
        ensures
            match r {
                Ok(_) => refusal(name@, self.next(), true) is None,
                Err(e) => refusal(name@, self.next(), true) == Some(e),
            },
    {
        if !same_text(name, editor_id()) {
            Err(PluginError::EditorNotFound)
        } else if self.next_editor_id == usize::MAX {
            Err(PluginError::InstancesExhausted)
        } else {
            Ok(())
        }
    }

    /// Registers a new instance of the editor named `name` and returns its
    /// number; `started` says whether the terminal of the instance runs.
    /// An instance is made exactly when the name is that of the terminal
    /// editor, a number is left and the terminal has started; it gets the
    /// next number, so the numbers of all instances differ. Otherwise the
    /// reason is returned, and neither the register nor the next number
    /// changes: a terminal that never started leaves no trace.
    pub fn create_editor(&mut self, name: &str, started: bool) -> (r: Result<usize, PluginError>)
        requires
            old(self).wf(),
        ensures
            final(self).wf(),
            r is Ok <==> name@ == editor_name() && old(self).next() < usize::MAX && started,
            match r {
                Ok(id) => {
                    &&& refusal(name@, old(self).next(), started) is None
                    &&& id == old(self).next()
                    &&& final(self).next() == id + 1
                    &&& final(self)@ == old(self)@.insert(id, wrapper_of(id))
                },
                Err(e) => {
                    &&& refusal(name@, old(self).next(), started) == Some(e)
                    &&& final(self)@ == old(self)@
                    &&& final(self).next() == old(self).next()
                },
            },
    {
        broadcast use vstd::std_specs::hash::group_hash_axioms;

        match self.check_editor(name) {
            Err(e) => Err(e),
            Ok(_) => {
                if !started {
                    Err(PluginError::StartFailed)
                } else {
                    let id = self.next_editor_id;
                    self.next_editor_id = id + 1;
                    self.editors.insert(id, TerminalEditorWrapper::new(id));
                    Ok(id)
                }
            },
        }
    }

    /// The wrapper of instance `id`, if it is registered.
    pub fn editor(&self, id: usize) -> (w: Option<TerminalEditorWrapper>)
        requires
            self.wf(),
        ensures
            w == (if self@.dom().contains(id) {
                Some(wrapper_of(id))
            } else {
                None::<TerminalEditorWrapper>
            }),
    {
        broadcast use vstd::std_specs::hash::group_hash_axioms;

        match self.editors.get(&id) {
            Some(w) => Some(*w),
            None => None,
        }
    }

    /// The number of instances registered.
    pub fn instance_count(&self) -> (n: usize)
        ensures
            n == self@.len(),
    {
        broadcast use vstd::std_specs::hash::group_hash_axioms;

        self.editors.len()
    }

    /// Forgets every instance and returns how many there were. Numbers
    /// given out are not given out again.
    pub fn on_unload(&mut self) -> (count: usize)
        requires
            old(self).wf(),
        ensures
            final(self).wf(),
            count == old(self)@.len(),
            final(self)@ == Map::<usize, TerminalEditorWrapper>::empty(),
            final(self).next() == old(self).next(),
    {
        broadcast use vstd::std_specs::hash::group_hash_axioms;

        let count = self.editors.len();
        self.editors.clear();
        count
    }
}

/// One editor instance, as the host sees it. A terminal has no file: its
/// path is empty, it is never dirty, and saving and reloading do nothing
/// and succeed.
#[derive(Clone, Copy, PartialEq, Eq, Structural, Debug)]
pub struct TerminalEditorWrapper {
    instance: usize,
}

/// The wrapper of the instance with number `instance`.
pub closed spec fn wrapper_of(instance: usize) -> TerminalEditorWrapper {
    TerminalEditorWrapper { instance }
}

impl TerminalEditorWrapper {
    /// The number of the instance.
    pub closed spec fn number(&self) -> usize {
        self.instance
    }

    /// A wrapper is known by its number.
    pub proof fn lemma_number(&self)
        ensures
            *self == wrapper_of(self.number()),
            forall|n: usize| #[trigger] wrapper_of(n).number() == n,
    {
    }

    /// The wrapper of the instance with this number.
    pub fn new(instance: usize) -> (w: TerminalEditorWrapper)
        ensures
            w == wrapper_of(instance),
            w.number() == instance,
    {
        TerminalEditorWrapper { instance }
    }

    /// The number of the instance.
    pub fn instance(&self) -> (n: usize)
        ensures
            n == self.number(),
    {
        self.instance
    }

    /// The path of the file that the editor shows: empty.
    pub fn file_path(&self) -> (path: &'static str)
        ensures
            path@.len() == 0,
    {
        let path = "";
        proof {
            reveal_strlit("");
        }
        path
    }

    /// Saves: there is nothing to save.
    pub fn save(&mut self) -> (r: Result<(), PluginError>)
        ensures
            r is Ok,
            *final(self) == *old(self),
    {
        Ok(())
    }

    /// Reloads: there is nothing to reload.
    pub fn reload(&mut self) -> (r: Result<(), PluginError>)
        ensures
            r is Ok,
            *final(self) == *old(self),
    {
        Ok(())
    }

    /// Whether there are changes to save: never.
    pub fn is_dirty(&self) -> (dirty: bool)
        ensures
            !dirty,
    {
        false
    }
}

/// The plan of the window that the status bar button of the terminal
/// window plugin opens: at (150, 150), 1000 by 700 pixels and at least 600 by
/// 400, resizable, with a transparent title bar and its own decorations.
pub open spec fn terminal_window() -> WindowPlan {
    WindowPlan {
        x: 150,
        y: 150,
        width: 1000,
        height: 700,
        min_width: 600,
        min_height: 400,
        resizable: true,
        transparent_titlebar: true,
        client_decorations: true,
    }
}

/// The window to open when the terminal is toggled from the status bar.
pub fn toggle_terminal() -> (plan: WindowPlan)
    ensures
        plan == terminal_window(),
{
    WindowPlan {
        x: 150,
        y: 150,
        width: 1000,
        height: 700,
        min_width: 600,
        min_height: 400,
        resizable: true,
        transparent_titlebar: true,
        client_decorations: true,
    }
}

/// The terminal window plugin: the variant of the plugin that offers no
/// editor and opens the terminal in a window of its own instead.
pub struct TerminalWindowPlugin {}

impl TerminalWindowPlugin {
    /// What the plugin tells the host about itself.
    pub fn metadata(&self) -> (m: PluginMetadata)
        ensures
            m.id@ == "com.pulsar.terminal"@,
            m.name@ == "Terminal"@,
            m.version@ == "0.1.0"@,
            m.author@ == "Pulsar"@,
            m.description@ == "Integrated terminal emulator"@,
    {
        PluginMetadata {
            id: "com.pulsar.terminal",
            name: "Terminal",
            version: "0.1.0",
            author: "Pulsar",
            description: "Integrated terminal emulator",
        }
    }

    /// The plugin's status bar buttons: one, on the left, that calls the
    /// plugin back to toggle the terminal window.
    pub fn statusbar_buttons(&self) -> (buttons: Vec<StatusbarButton>)
        ensures
            buttons@.len() == 1,
            buttons@[0].id@ == "terminal.toggle"@,
            buttons@[0].tooltip@ == "Toggle Terminal"@,
            buttons@[0].position == StatusbarPosition::Left,
            buttons@[0].priority == 50,
            buttons@[0].action is Custom,
    {
        let mut buttons: Vec<StatusbarButton> = Vec::new();
        buttons.push(
            StatusbarButton {
                id: "terminal.toggle",
                tooltip: "Toggle Terminal",
                position: StatusbarPosition::Left,
                priority: 50,
                action: ButtonAction::Custom,
            },
        );
        buttons
    }

    /// The editors that the plugin offers: none.
    pub fn editors(&self) -> (editors: Vec<EditorMetadata>)
        ensures
            editors@.len() == 0,
    {
        Vec::new()
    }

    /// Refuses: this plugin makes no editor, whatever the name.
    pub fn create_editor(&self, name: &str) -> (r: Result<usize, PluginError>)
        ensures
            r == Err::<usize, PluginError>(PluginError::EditorsUnsupported),
    {
        Err(PluginError::EditorsUnsupported)
    }
}

} // verus!
