//! What the window reports, and what the renderer makes of it.

use vstd::prelude::*;

verus! {

/// `GLFW_KEY_ESCAPE`.
pub const GLFW_KEY_ESCAPE: i32 = 256;

/// `GLFW_KEY_UNKNOWN`.
pub const GLFW_KEY_UNKNOWN: i32 = -1;

/// `GLFW_PRESS`.
pub const GLFW_PRESS: i32 = 1;

/// A key that the renderer tells apart from the others.
#[derive(Clone, Copy, Debug, PartialEq, Eq, Structural)]
pub enum Key {
    Escape,
    Unknown,
}

/// Something that happened to the window.
#[derive(Clone, Copy, Debug, PartialEq, Eq, Structural)]
pub enum Event {
    KeyPress(Key),
    KeyRelease(Key),
    WindowResize(i32, i32),
}

/// How large the window is to be, and whether it fills the screen.
#[derive(Clone, Copy, Debug, PartialEq, Eq, Structural)]
pub enum Resolution {
    Windowed(i32, i32),
    Fullscreen,
    FullscreenWithRes(i32, i32),
}

/// Where and how large a window is created.
#[derive(Clone, Copy, Debug, PartialEq, Eq, Structural)]
pub struct Placement {
    pub width: i32,
    pub height: i32,
    /// Whether the window takes over the primary monitor.
    pub on_monitor: bool,
    /// Whether the user may resize the window.
    pub resizable: bool,
    /// Whether the window takes the input focus when it appears.
    pub focused: bool,
}

/// What the main loop does about an event.
#[derive(Clone, Copy, Debug, PartialEq, Eq, Structural)]
pub enum Reaction {
    /// Leave the main loop.
    Quit,
    /// Hand the new size to the frame orchestrator.
    Resize { width: i32, height: i32 },
    /// Nothing.
    Ignore,
}

/// The events that have arrived and have not been handed out yet.
pub struct Window {
    running: bool,
    events: Vec<Event>,
}

impl Key {
    /// The key that a key code stands for.
    pub open spec fn of(num: i32) -> Key {
        if num == GLFW_KEY_ESCAPE {
            Key::Escape
        } else {
            Key::Unknown
        }
    }

    /// The key that a key code stands for: escape, or any other.
    pub fn from_i32(num: i32) -> (key: Key)
        ensures
            key == Key::of(num),
    {
        if num == GLFW_KEY_ESCAPE {
            Key::Escape
        } else {
            Key::Unknown
        }
    }
}

/// The event that a key report stands for: a press where the action is
/// a press, and a release for any other action.
pub fn key_callback(code: i32, action: i32) -> (event: Event)
    ensures
        event == if action == GLFW_PRESS {
            Event::KeyPress(Key::of(code))
        } else {
            Event::KeyRelease(Key::of(code))
        },
{
    let key = Key::from_i32(code);
    if action == GLFW_PRESS {
        Event::KeyPress(key)
    } else {
        Event::KeyRelease(key)
    }
}

/// The event that a size report stands for.
pub fn window_size_callback(width: i32, height: i32) -> (event: Event)
    ensures
        event == Event::WindowResize(width, height),
{
    Event::WindowResize(width, height)
}

/// What the main loop does about an event: it ends on a press of escape,
/// passes a new size on, and lets everything else go.
pub open spec fn reaction_to(event: Event) -> Reaction {
    match event {
        Event::KeyPress(Key::Escape) => Reaction::Quit,
        Event::WindowResize(width, height) => Reaction::Resize { width, height },
        _ => Reaction::Ignore,
    }
}

/// What the main loop does about an event. See [`reaction_to`].
pub fn react(event: Event) -> (reaction: Reaction)
    ensures
        reaction == reaction_to(event),
{
    match event {
        Event::KeyPress(Key::Escape) => Reaction::Quit,
        Event::WindowResize(width, height) => Reaction::Resize { width, height },
        _ => Reaction::Ignore,
    }
}

impl Resolution {
    /// Where and how large the window is created. A window on the desktop
    /// has the size asked for, cannot be resized and does not take the
    /// focus. A full-screen window takes the primary monitor, at the size
    /// asked for or else at the size of the monitor's video mode, which
    /// is `video_mode`.
    pub open spec fn placed(self, video_mode: (i32, i32)) -> Placement {
        match self {
            Resolution::Windowed(width, height) => Placement {
                width,
                height,
                on_monitor: false,
                resizable: false,
                focused: false,
            },
            Resolution::Fullscreen => Placement {
                width: video_mode.0,
                height: video_mode.1,
                on_monitor: true,
                resizable: true,
                focused: true,
            },
            Resolution::FullscreenWithRes(width, height) => Placement {
                width,
                height,
                on_monitor: true,
                resizable: true,
                focused: true,
            },
        }
    }

    /// Where and how large the window is created. See
    /// [`Resolution::placed`].
    pub fn placement(self, video_mode: (i32, i32)) -> (placement: Placement)
        ensures
            placement == self.placed(video_mode),
    {
        match self {
            Resolution::Windowed(width, height) => Placement {
                width,
                height,
                on_monitor: false,
                resizable: false,
                focused: false,
            },
            Resolution::Fullscreen => Placement {
                width: video_mode.0,
                height: video_mode.1,
                on_monitor: true,
                resizable: true,
                focused: true,
            },
            Resolution::FullscreenWithRes(width, height) => Placement {
                width,
                height,
                on_monitor: true,
                resizable: true,
                focused: true,
            },
        }
    }
}

impl Window {
    /// The events that are waiting, oldest first.
    pub closed spec fn pending(&self) -> Seq<Event> {
        self.events@
    }

    /// Whether the window is still open.
    pub closed spec fn is_running(&self) -> bool {
        self.running
    }

    /// Whether the window is still open.
    pub fn running(&self) -> (running: bool)
        ensures
            running == self.is_running(),
    {
        self.running
    }

    /// An open window on which nothing has happened yet.
    pub fn new() -> (window: Window)
        ensures
            window.is_running(),
            window.pending() == Seq::<Event>::empty(),
    {
        Window { running: true, events: Vec::new() }
    }

    /// Takes in an event as it arrives.
    pub fn push_event(&mut self, event: Event)
        ensures
            final(self).pending() == old(self).pending().push(event),
            final(self).is_running() == old(self).is_running(),
    {
        self.events.push(event);
    }

    /// Hands out the events that have arrived, oldest first, and keeps
    /// none. The window stops running once it has been asked to close.
    pub fn poll_events(&mut self, should_close: bool) -> (events: Vec<Event>)
        ensures
            events@ == old(self).pending(),
            final(self).pending() == Seq::<Event>::empty(),
            final(self).is_running() == (old(self).is_running() && !should_close),
    {
        if should_close {
            self.running = false;
        }
        let mut events: Vec<Event> = Vec::new();
        let mut i: usize = 0;
        while i < self.events.len()
            invariant
                i <= self.events.len(),
                events@ == self.events@.take(i as int),
                self.events@ == old(self).events@,
                self.running == (old(self).running && !should_close),
            decreases self.events.len() - i,
        {
            events.push(self.events[i]);
            i += 1;
        }
        self.events = Vec::new();
        events
    }
}

} // verus!
