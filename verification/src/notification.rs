//! Short messages that disappear by themselves.

use vstd::prelude::*;

use crate::theme::Color;

verus! {

#[derive(Debug)]
pub struct Notification {
    pub text: String,
    pub kind: Kind,
    /// The ticks that are left.
    pub ttl: u8,
}

#[derive(Clone, Copy, Debug, PartialEq, Eq, Structural)]
pub enum Kind {
    Info,
    Error,
}

/// The ticks that a message is shown for.
pub const INFO_TTL: u8 = 30;

/// The ticks that an error is shown for.
pub const ERROR_TTL: u8 = 50;

#[verifier::ext_equal]
pub struct NotificationView {
    pub text: Seq<char>,
    pub kind: Kind,
    pub ttl: u8,
}

impl View for Notification {
    type V = NotificationView;

    open spec fn view(&self) -> NotificationView {
        NotificationView { text: self.text@, kind: self.kind, ttl: self.ttl }
    }
}

pub open spec fn info_view(text: Seq<char>) -> NotificationView {
    NotificationView { text, kind: Kind::Info, ttl: INFO_TTL }
}

pub open spec fn error_view(text: Seq<char>) -> NotificationView {
    NotificationView { text, kind: Kind::Error, ttl: ERROR_TTL }
}

/// The notifications of a list.
pub open spec fn notification_views(v: Seq<Notification>) -> Seq<NotificationView> {
    Seq::new(v.len(), |i: int| v[i]@)
}

/// The colour of a kind of message.
pub open spec fn colour_of(kind: Kind) -> Color {
    match kind {
        Kind::Info => Color::Green,
        Kind::Error => Color::Red,
    }
}

impl Notification {
    pub fn info(text: String) -> (r: Self)
        ensures
            r@ == info_view(text@),
    {
        Notification { text, kind: Kind::Info, ttl: INFO_TTL }
    }

    pub fn error(text: String) -> (r: Self)
        ensures
            r@ == error_view(text@),
    {
        Notification { text, kind: Kind::Error, ttl: ERROR_TTL }
    }

    pub fn color(&self) -> (r: Color)
        ensures
            r == colour_of(self.kind),
            r == (match self.kind {
                Kind::Info => Color::Green,
                Kind::Error => Color::Red,
            }),
    {
        match self.kind {
            Kind::Info => Color::Green,
            Kind::Error => Color::Red,
        }
    }
}

/// A message and an error are shown with the words that were given; an error
/// is marked as one, and is shown longer.
pub proof fn an_error_is_shown_longer(text: Seq<char>)
    ensures
        info_view(text).text == text,
        error_view(text).text == text,
        info_view(text).kind is Info,
        error_view(text).kind is Error,
        info_view(text).ttl == 30,
        error_view(text).ttl == 50,
{
}

/// Errors are red, and nothing else is.
pub proof fn errors_are_red(kind: Kind)
    ensures
        colour_of(kind) == Color::Red <==> kind is Error,
        colour_of(kind) == Color::Green <==> kind is Info,
{
}

} // verus!
