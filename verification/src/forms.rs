//! Implementation of the forms system available in Minecraft.
//!
//! Forms allow you to create (basic) custom interfaces which users can respond to.
//! There are three different kinds of forms: custom forms, menus and modals.
use vstd::prelude::*;

mod private;

pub use private::Sealed;

verus! {

/// The image shown next to a menu button.
#[derive(Debug)]
pub enum ButtonImage {
    /// An image from a resource pack path.
    Path(String),
    /// An image from a URL.
    Url(String),
}

/// A button of a menu form.
#[derive(Debug)]
pub struct Button {
    /// Text shown on the button.
    pub text: String,
    /// Optional image shown next to the text.
    pub image: Option<ButtonImage>,
}

/// The kind of a submitted form.
#[derive(Debug, Copy, Clone, PartialEq, Eq, Structural)]
pub enum FormDesc {
    /// A custom form.
    Custom,
    /// A modal form.
    Modal,
    /// A menu form.
    Menu,
}

/// A form that can be submitted to the client.
pub trait SubmittableForm: Sealed {
    /// The kind of the form.
    fn into_desc(self) -> FormDesc;
}

/// A forms is similar to a modal but it has an arbitrary amount of buttons.
#[derive(Debug)]
pub struct Menu<'a> {
    /// Title of the forms. This is displayed at the top of the window.
    title: &'a str,
    /// Content of the form. This is the text shown above the buttons.
    body: &'a str,
    /// List of buttons that are available.
    buttons: Vec<Button>,
}

impl<'a> Menu<'a> {
    /// The title of the menu.
    pub closed spec fn spec_title(&self) -> &'a str {
        self.title
    }

    /// The body text of the menu.
    pub closed spec fn spec_body(&self) -> &'a str {
        self.body
    }

    /// The buttons of the menu, in order.
    pub closed spec fn spec_buttons(&self) -> Seq<Button> {
        self.buttons@
    }

    /// Creates a new, empty menu titled "Menu" with an empty body.
    pub fn new() -> (m: Menu<'a>)
        ensures
            m.spec_title()@ == "Menu"@,
            m.spec_body()@ == ""@,
            m.spec_buttons() == Seq::<Button>::empty(),
    {
        Menu { title: "Menu", body: "", buttons: Vec::new() }
    }

    /// Sets the title of the form.
    ///
    /// Default: "Menu"
    pub fn title(self, title: &'a str) -> (m: Menu<'a>)
        ensures
            m.spec_title() == title,
            m.spec_body() == self.spec_body(),
            m.spec_buttons() == self.spec_buttons(),
    {
        let mut s = self;
        s.title = title;
        s
    }

    /// Sets the body of the form.
    /// Default: ""
    pub fn body(self, body: &'a str) -> (m: Menu<'a>)
        ensures
            m.spec_title() == self.spec_title(),
            m.spec_body() == body,
            m.spec_buttons() == self.spec_buttons(),
    {
        let mut s = self;
        s.body = body;
        s
    }

    /// Adds a button to the menu.
    pub fn button(self, button: Button) -> (m: Menu<'a>)
        ensures
            m.spec_title() == self.spec_title(),
            m.spec_body() == self.spec_body(),
            m.spec_buttons() == self.spec_buttons().push(button),
    {
        let mut s = self;
        s.buttons.push(button);
        s
    }

    /// Returns the title.
    pub fn get_title(&self) -> (t: &'a str)
        ensures
            t == self.spec_title(),
    {
        self.title
    }

    /// Returns the body text.
    pub fn get_body(&self) -> (b: &'a str)
        ensures
            b == self.spec_body(),
    {
        self.body
    }

    /// Returns the buttons.
    pub fn buttons(&self) -> (b: &[Button])
        ensures
            b@ == self.spec_buttons(),
    {
        self.buttons.as_slice()
    }

    /// Takes the buttons out of the menu.
    pub fn into_buttons(self) -> (b: Vec<Button>)
        ensures
            b@ == self.spec_buttons(),
    {
        self.buttons
    }
}

impl<'a> Default for Menu<'a> {
    fn default() -> (m: Menu<'a>)
        ensures
            m.spec_title()@ == "Menu"@,
            m.spec_body()@ == ""@,
            m.spec_buttons() == Seq::<Button>::empty(),
    {
        Menu::new()
    }
}

impl<'a> Sealed for Menu<'a> {}

impl<'a> SubmittableForm for Menu<'a> {
    fn into_desc(self) -> (d: FormDesc)
        ensures
            d == FormDesc::Menu,
    {
        FormDesc::Menu
    }
}

} // verus!
