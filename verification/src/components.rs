use vstd::prelude::*;
use crate::strings::owned;

verus! {

/// The screen being shown.
#[derive(Debug, Clone, Copy, PartialEq, Eq, Structural)]
pub enum CurrentComponent {
    Home,
}

/// The messages that the database layer writes.
#[derive(Debug)]
pub struct RepositoryConsole {
    pub messages: Vec<String>,
}

impl RepositoryConsole {
    /// An empty console.
    pub fn new() -> (res: Self)
        ensures
            res.messages@.len() == 0,
    {
        RepositoryConsole { messages: Vec::new() }
    }

    /// Appends a message.
    pub fn write(&mut self, message: String)
        ensures
            final(self).messages@ == old(self).messages@.push(message),
    {
        self.messages.push(message);
    }

    /// Forgets all messages.
    pub fn clear_messages(&mut self)
        ensures
            final(self).messages@.len() == 0,
    {
        self.messages = Vec::new();
    }
}

/// The messages shown to the user: those of the screens and those of the
/// database layer.
#[derive(Debug)]
pub struct Console {
    pub messages: Vec<String>,
    pub repository_console: RepositoryConsole,
}

impl Console {
    /// An empty console over the database layer's console.
    pub fn new(repository_console: RepositoryConsole) -> (res: Self)
        ensures
            res.messages@.len() == 0,
            res.repository_console == repository_console,
    {
        Console { messages: Vec::new(), repository_console }
    }

    /// The messages of the screens.
    pub fn get_messages(&self) -> (res: Vec<String>)
        ensures
            res@ == self.messages@,
    {
        crate::strings::duplicate_strings(&self.messages)
    }

    /// The messages of the database layer.
    pub fn get_database_messages(&self) -> (res: Vec<String>)
        ensures
            res@ == self.repository_console.messages@,
    {
        crate::strings::duplicate_strings(&self.repository_console.messages)
    }

    /// Forgets the messages of the screens.
    pub fn clear_messages(&mut self)
        ensures
            final(self).messages@.len() == 0,
            final(self).repository_console == old(self).repository_console,
    {
        self.messages = Vec::new();
    }

    /// Forgets the messages of the database layer.
    pub fn clear_database_messages(&mut self)
        ensures
            final(self).messages == old(self).messages,
            final(self).repository_console.messages@.len() == 0,
    {
        self.repository_console.clear_messages();
    }

    /// Appends a message of the screens.
    pub fn write(&mut self, message: String)
        ensures
            final(self).messages@ == old(self).messages@.push(message),
            final(self).repository_console == old(self).repository_console,
    {
        self.messages.push(message);
    }
}

/// A part of the application that prepares its state when it is first shown.
pub trait BusinessComponent {
    fn initialize_component(&mut self, console: &mut Console);
}

/// What the home screen shows.
#[derive(Debug, Clone, PartialEq)]
pub struct HomeContent {
    pub title: String,
}

/// The home screen.
#[derive(Debug)]
pub struct Home {
    pub title: Option<String>,
}

impl Home {
    /// A home screen not yet initialised.
    pub fn new() -> (res: Self)
        ensures
            res.title is None,
    {
        Home { title: None }
    }

    /// What the home screen shows.
    pub fn content(&self) -> (res: HomeContent)
        ensures
            res.title@ == "Home Component"@,
    {
        HomeContent { title: owned("Home Component") }
    }
}

impl BusinessComponent for Home {
    /// Sets the title and reports it on the console.
    fn initialize_component(&mut self, console: &mut Console)
        ensures
            final(self).title is Some,
            final(self).title.unwrap()@ == "Home Component"@,
            final(console).messages@.len() == old(console).messages@.len() + 1,
            final(console).messages@.drop_last() == old(console).messages@,
            final(console).messages@.last()@ == "Home Component Initialized"@,
            final(console).repository_console == old(console).repository_console,
    {
        self.title = Some(owned("Home Component"));
        console.write(owned("Home Component Initialized"));
    }
}

/// The messages of the home screen.
#[derive(Debug, Clone, Copy, PartialEq, Eq, Structural)]
pub enum HomeMessage {
    InitializeComponent,
    ComponentInitialized,
}

/// The messages of the console.
#[derive(Debug, Clone, PartialEq)]
pub enum ConsoleMessage {
    LogMessage(String),
}

impl Console {
    /// Handles a message of the console: a logged message is shown.
    pub fn update(&mut self, message: ConsoleMessage)
        ensures
            match message {
                ConsoleMessage::LogMessage(m) => final(self).messages@ == old(self).messages@.push(m),
            },
            final(self).repository_console == old(self).repository_console,
    {
        match message {
            ConsoleMessage::LogMessage(m) => self.write(m),
        }
    }
}

} // verus!
