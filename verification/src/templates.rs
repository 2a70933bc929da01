//! The HTML fragments of the service. Each fragment type holds the values
//! that vary; `render` writes the fixed markup around them, with every text
//! value escaped.

use vstd::prelude::*;
use vstd::string::StringExecFns;
use crate::escape::{escape_html, html_escaped};
use crate::ident::{format_id, id_text};

verus! {

/// A plain list entry that shows a title and nothing else.
pub struct ListItem<'a> {
    pub title: &'a str,
}

/// A notice that reports a failure. It replaces the page's notice area
/// wherever the response is inserted.
pub struct ErrorModal<'a> {
    pub error_message: &'a str,
}

/// A notice that reports a success. It replaces the page's notice area
/// wherever the response is inserted.
pub struct SuccessModal<'a> {
    pub message: &'a str,
}

/// The title field of the entry form together with its validation message.
pub struct ValidateTodoModal<'a> {
    pub error_message: &'a str,
    pub value: &'a str,
}

/// Markup of a `ListItem`.
pub open spec fn list_item_markup(title: Seq<char>) -> Seq<char> {
    "<li>"@ + html_escaped(title) + "</li>"@
}

/// Markup of an `ErrorModal`.
pub open spec fn error_modal_markup(error_message: Seq<char>) -> Seq<char> {
    "<div id=\"notice\" class=\"notice error\" role=\"alert\" hx-swap-oob=\"true\">"@
        + html_escaped(error_message) + "</div>"@
}

/// Markup of a `SuccessModal`.
pub open spec fn success_modal_markup(message: Seq<char>) -> Seq<char> {
    "<div id=\"notice\" class=\"notice success\" role=\"status\" hx-swap-oob=\"true\">"@
        + html_escaped(message) + "</div>"@
}

/// Markup of a `ValidateTodoModal`.
pub open spec fn validate_todo_markup(error_message: Seq<char>, value: Seq<char>) -> Seq<char> {
    "<div id=\"todo-field\" hx-target=\"this\" hx-swap=\"outerHTML\"><input type=\"text\" name=\"todo\" value=\""@
        + html_escaped(value)
        + "\" hx-post=\"/todo/title\" hx-trigger=\"keyup changed delay:500ms\"><span class=\"error\">"@
        + html_escaped(error_message) + "</span></div>"@
}

impl<'a> ListItem<'a> {
    /// Writes the fragment.
    pub fn render(&self) -> (out: String)
        ensures
            out@ == list_item_markup(self.title@),
    {
        let mut out = String::from_str("<li>");
        let title = escape_html(self.title);
        out.append(title.as_str());
        out.append("</li>");
        out
    }
}

impl<'a> ErrorModal<'a> {
    /// Writes the fragment.
    pub fn render(&self) -> (out: String)
        ensures
            out@ == error_modal_markup(self.error_message@),
    {
        let mut out = String::from_str(
            "<div id=\"notice\" class=\"notice error\" role=\"alert\" hx-swap-oob=\"true\">",
        );
        let message = escape_html(self.error_message);
        out.append(message.as_str());
        out.append("</div>");
        out
    }
}

impl<'a> SuccessModal<'a> {
    /// Writes the fragment.
    pub fn render(&self) -> (out: String)
        ensures
            out@ == success_modal_markup(self.message@),
    {
        let mut out = String::from_str(
            "<div id=\"notice\" class=\"notice success\" role=\"status\" hx-swap-oob=\"true\">",
        );
        let message = escape_html(self.message);
        out.append(message.as_str());
        out.append("</div>");
        out
    }
}

impl<'a> ValidateTodoModal<'a> {
    /// Writes the fragment.
    pub fn render(&self) -> (out: String)
        ensures
            out@ == validate_todo_markup(self.error_message@, self.value@),
    {
        let mut out = String::from_str(
            "<div id=\"todo-field\" hx-target=\"this\" hx-swap=\"outerHTML\"><input type=\"text\" name=\"todo\" value=\"",
        );
        let value = escape_html(self.value);
        out.append(value.as_str());
        out.append(
            "\" hx-post=\"/todo/title\" hx-trigger=\"keyup changed delay:500ms\"><span class=\"error\">",
        );
        let message = escape_html(self.error_message);
        out.append(message.as_str());
        out.append("</span></div>");
        out
    }
}

/// An item of the list as it is shown: its title, a checkbox that toggles
/// completion, and buttons to edit and to delete it.
pub struct TodoItem<'a> {
    pub title: &'a str,
    pub id: u128,
    pub done: bool,
}

/// An item of the list as a form in which its title can be changed.
pub struct EditTodoItem<'a> {
    pub title: &'a str,
    pub id: u128,
    pub done: bool,
}

/// The attributes by which a request replaces the fragment of item `id`
/// with the response.
pub open spec fn replace_item_attrs(id: u128) -> Seq<char> {
    " hx-target=\"#todo-"@ + id_text(id) + "\" hx-swap=\"outerHTML\""@
}

/// How a completion flag is written as a form value.
pub open spec fn flag_text(done: bool) -> Seq<char> {
    if done {
        "true"@
    } else {
        "false"@
    }
}

/// Markup of a `TodoItem`.
pub open spec fn todo_item_markup(title: Seq<char>, id: u128, done: bool) -> Seq<char> {
    "<li id=\"todo-"@ + id_text(id) + (if done {
        "\" class=\"todo done\"><input type=\"checkbox\" checked hx-put=\"/todo/"@
    } else {
        "\" class=\"todo\"><input type=\"checkbox\" hx-put=\"/todo/"@
    }) + id_text(id) + "/done\""@ + replace_item_attrs(id) + "><span>"@ + html_escaped(title)
        + "</span><button hx-get=\"/todo/"@ + id_text(id) + "/edit\""@ + replace_item_attrs(id)
        + ">Edit</button><button hx-delete=\"/todo/"@ + id_text(id) + "\""@ + replace_item_attrs(
        id,
    ) + ">Delete</button></li>"@
}

/// Markup of an `EditTodoItem`.
pub open spec fn edit_todo_markup(title: Seq<char>, id: u128, done: bool) -> Seq<char> {
    "<li id=\"todo-"@ + id_text(id) + "\" class=\"todo editing\"><form hx-put=\"/todo/"@ + id_text(
        id,
    ) + "\""@ + replace_item_attrs(id) + "><input type=\"hidden\" name=\"id\" value=\""@ + id_text(
        id,
    ) + "\"><input type=\"hidden\" name=\"done\" value=\""@ + flag_text(done)
        + "\"><input type=\"text\" name=\"title\" value=\""@ + html_escaped(title)
        + "\"><button type=\"submit\">Save</button><button type=\"button\" hx-get=\"/todo/"@
        + id_text(id) + "\""@ + replace_item_attrs(id) + ">Cancel</button></form></li>"@
}

/// Appends the attributes that make a request replace the item's fragment.
fn push_replace_item_attrs(out: &mut String, id: &str, Ghost(n): Ghost<u128>)
    requires
        id@ == id_text(n),
    ensures
        final(out)@ == old(out)@ + replace_item_attrs(n),
{
    out.append(" hx-target=\"#todo-");
    out.append(id);
    out.append("\" hx-swap=\"outerHTML\"");
    assert(out@ =~= old(out)@ + replace_item_attrs(n));
}

impl<'a> TodoItem<'a> {
    /// Writes the fragment.
    pub fn render(&self) -> (out: String)
        ensures
            out@ == todo_item_markup(self.title@, self.id, self.done),
    {
        let id = format_id(self.id);
        let title = escape_html(self.title);
        let mut out = String::from_str("<li id=\"todo-");
        out.append(id.as_str());
        if self.done {
            out.append("\" class=\"todo done\"><input type=\"checkbox\" checked hx-put=\"/todo/");
        } else {
            out.append("\" class=\"todo\"><input type=\"checkbox\" hx-put=\"/todo/");
        }
        out.append(id.as_str());
        out.append("/done\"");
        push_replace_item_attrs(&mut out, id.as_str(), Ghost(self.id));
        out.append("><span>");
        out.append(title.as_str());
        out.append("</span><button hx-get=\"/todo/");
        out.append(id.as_str());
        out.append("/edit\"");
        push_replace_item_attrs(&mut out, id.as_str(), Ghost(self.id));
        out.append(">Edit</button><button hx-delete=\"/todo/");
        out.append(id.as_str());
        out.append("\"");
        push_replace_item_attrs(&mut out, id.as_str(), Ghost(self.id));
        out.append(">Delete</button></li>");
        out
    }
}

impl<'a> EditTodoItem<'a> {
    /// Writes the fragment.
    pub fn render(&self) -> (out: String)
        ensures
            out@ == edit_todo_markup(self.title@, self.id, self.done),
    {
        let id = format_id(self.id);
        let title = escape_html(self.title);
        let mut out = String::from_str("<li id=\"todo-");
        out.append(id.as_str());
        out.append("\" class=\"todo editing\"><form hx-put=\"/todo/");
        out.append(id.as_str());
        out.append("\"");
        push_replace_item_attrs(&mut out, id.as_str(), Ghost(self.id));
        out.append("><input type=\"hidden\" name=\"id\" value=\"");
        out.append(id.as_str());
        out.append("\"><input type=\"hidden\" name=\"done\" value=\"");
        if self.done {
            out.append("true");
        } else {
            out.append("false");
        }
        out.append("\"><input type=\"text\" name=\"title\" value=\"");
        out.append(title.as_str());
        out.append(
            "\"><button type=\"submit\">Save</button><button type=\"button\" hx-get=\"/todo/",
        );
        out.append(id.as_str());
        out.append("\"");
        push_replace_item_attrs(&mut out, id.as_str(), Ghost(self.id));
        out.append(">Cancel</button></form></li>");
        out
    }
}

} // verus!
