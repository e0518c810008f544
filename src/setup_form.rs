//! The two-field form that asks for an endpoint and a token.
use vstd::prelude::*;
use crate::app::Key;
use crate::text::{chars_of, string_of_chars};

verus! {

/// The field that receives typing.
#[derive(Debug, Clone, Copy, PartialEq, Eq, Structural)]
pub enum FieldFocus {
    Url,
    Token,
}

/// What the form asks of its caller after a key.
#[derive(Debug, Clone, Copy, PartialEq, Eq, Structural)]
pub enum FormStep {
    /// Keep editing.
    Editing,
    /// Editing is over; the fields hold the result.
    Done,
}

/// The fields being edited and which one has focus.
#[derive(Debug, Clone)]
pub struct SetupData {
    url: Vec<char>,
    token: Vec<char>,
    focused_field: FieldFocus,
}

impl SetupData {
    pub closed spec fn url_text(&self) -> Seq<char> {
        self.url@
    }

    pub closed spec fn token_text(&self) -> Seq<char> {
        self.token@
    }

    pub closed spec fn focused(&self) -> FieldFocus {
        self.focused_field
    }

    /// A form holding the given values, the URL focused.
    pub fn new(url: &str, token: &str) -> (r: SetupData)
        ensures
            r.url_text() == url@,
            r.token_text() == token@,
            r.focused() == FieldFocus::Url,
    {
        SetupData { url: chars_of(url), token: chars_of(token), focused_field: FieldFocus::Url }
    }

    pub fn url(&self) -> (r: String)
        ensures
            r@ == self.url_text(),
    {
        string_of_chars(&self.url)
    }

    pub fn token(&self) -> (r: String)
        ensures
            r@ == self.token_text(),
    {
        string_of_chars(&self.token)
    }

    pub fn focused_field(&self) -> (r: FieldFocus)
        ensures
            r == self.focused(),
    {
        self.focused_field
    }

    /// Enter and Escape end editing; Tab switches fields; Backspace removes
    /// the last character of the focused field; a character is appended to it.
    pub fn handle_key(&mut self, key: Key) -> (r: FormStep)
        ensures
            r == (if key == Key::Enter || key == Key::Esc { FormStep::Done } else { FormStep::Editing }),
            key == Key::Tab ==> final(self).focused() != old(self).focused(),
            key != Key::Tab ==> final(self).focused() == old(self).focused(),
            final(self).url_text() == if old(self).focused() == FieldFocus::Url {
                match key {
                    Key::Backspace => if old(self).url_text().len() > 0 { old(self).url_text().drop_last() } else { old(self).url_text() },
                    Key::Char(c) => old(self).url_text().push(c),
                    _ => old(self).url_text(),
                }
            } else {
                old(self).url_text()
            },
            final(self).token_text() == if old(self).focused() == FieldFocus::Token {
                match key {
                    Key::Backspace => if old(self).token_text().len() > 0 { old(self).token_text().drop_last() } else { old(self).token_text() },
                    Key::Char(c) => old(self).token_text().push(c),
                    _ => old(self).token_text(),
                }
            } else {
                old(self).token_text()
            },
    {
        match key {
            Key::Enter | Key::Esc => {
                return FormStep::Done;
            },
            Key::Tab => {
                self.focused_field = match self.focused_field {
                    FieldFocus::Url => FieldFocus::Token,
                    FieldFocus::Token => FieldFocus::Url,
                };
            },
            Key::Backspace => {
                match self.focused_field {
                    FieldFocus::Url => {
                        self.url.pop();
                    },
                    FieldFocus::Token => {
                        self.token.pop();
                    },
                }
            },
            Key::Char(c) => {
                match self.focused_field {
                    FieldFocus::Url => self.url.push(c),
                    FieldFocus::Token => self.token.push(c),
                }
            },
            _ => {},
        }
        FormStep::Editing
    }
}

} // verus!
