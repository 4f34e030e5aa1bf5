//! Styled pieces of a reply text.
use vstd::prelude::*;

verus! {

/// A piece of text with its style.
#[derive(Debug)]
pub struct Entity {
    pub text: String,
    pub bold: bool,
    pub italic: bool,
    pub code: bool,
    /// The address the piece links to.
    pub url: Option<String>,
}

pub struct EntityView {
    pub text: Seq<char>,
    pub bold: bool,
    pub italic: bool,
    pub code: bool,
    pub url: Option<Seq<char>>,
}

impl View for Entity {
    type V = EntityView;

    open spec fn view(&self) -> EntityView {
        EntityView {
            text: self.text@,
            bold: self.bold,
            italic: self.italic,
            code: self.code,
            url: match self.url {
                Some(u) => Some(u@),
                None => None,
            },
        }
    }
}

pub open spec fn plain(t: Seq<char>) -> EntityView {
    EntityView { text: t, bold: false, italic: false, code: false, url: None }
}

pub open spec fn bold(t: Seq<char>) -> EntityView {
    EntityView { text: t, bold: true, italic: false, code: false, url: None }
}

pub open spec fn italic(t: Seq<char>) -> EntityView {
    EntityView { text: t, bold: false, italic: true, code: false, url: None }
}

pub open spec fn code(t: Seq<char>) -> EntityView {
    EntityView { text: t, bold: false, italic: false, code: true, url: None }
}

pub open spec fn link(e: EntityView, u: Seq<char>) -> EntityView {
    EntityView { url: Some(u), ..e }
}

/// The views of a list of entities.
pub open spec fn views(es: Seq<Entity>) -> Seq<EntityView> {
    es.map_values(|e: Entity| e@)
}

pub fn text(t: String) -> (e: Entity)
    ensures
        e@ == plain(t@),
{
    Entity { text: t, bold: false, italic: false, code: false, url: None }
}

pub fn text_str(t: &str) -> (e: Entity)
    ensures
        e@ == plain(t@),
{
    text(String::from_str(t))
}

pub fn bold_text(t: String) -> (e: Entity)
    ensures
        e@ == bold(t@),
{
    Entity { text: t, bold: true, italic: false, code: false, url: None }
}

pub fn italic_text(t: String) -> (e: Entity)
    ensures
        e@ == italic(t@),
{
    Entity { text: t, bold: false, italic: true, code: false, url: None }
}

pub fn code_text(t: String) -> (e: Entity)
    ensures
        e@ == code(t@),
{
    Entity { text: t, bold: false, italic: false, code: true, url: None }
}

pub fn with_url(e: Entity, u: String) -> (r: Entity)
    ensures
        r@ == link(e@, u@),
{
    Entity { url: Some(u), ..e }
}

} // verus!
