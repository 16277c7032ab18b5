//! One page: its front matter, its body, and whether the front matter was
//! changed.
use vstd::prelude::*;

use crate::date::{CalendarDate, FieldValue};
use crate::error::ProcessError;
use crate::front_matter::{
    chars_of, front_matter_parts, render_front_matter, rendered, split_front_matter,
};
use crate::reconcile::{last_edit_valid, reconcile, reconciliation, Reconciliation};
use crate::toml::{
    document_text, field_in, field_value, parse_document, remove_field, set_date, toml_fields,
    toml_parse, toml_text,
};

verus! {

/// The reconciliation for the fields of a front matter.
pub open spec fn reconciled_for(
    fields: Map<Seq<char>, FieldValue>,
    last_edit_date: Option<CalendarDate>,
    today: CalendarDate,
) -> Reconciliation {
    reconciliation(
        last_edit_date,
        field_in(fields, "date"@),
        field_in(fields, "updated"@),
        today,
    )
}

/// The fields once `date` and `updated` hold what `rec` decided; `updated`
/// is gone where it is not due.
pub open spec fn reconciled_fields(
    fields: Map<Seq<char>, FieldValue>,
    rec: Reconciliation,
) -> Map<Seq<char>, FieldValue> {
    let with_date = fields.insert("date"@, FieldValue::Date(rec.date));
    match rec.updated {
        Some(u) => with_date.insert("updated"@, FieldValue::Date(u)),
        None => with_date.remove("updated"@),
    }
}

/// The error for a last edit after today.
pub open spec fn future_edit_error(
    last_edit_date: Option<CalendarDate>,
    today: CalendarDate,
) -> ProcessError {
    ProcessError::LastEditInFuture { last_edit: last_edit_date->Some_0, today }
}

/// A page split into front matter and body.
pub struct FileData {
    is_changed: bool,
    front_matter: String,
    content: String,
}

/// What a `FileData` holds.
pub ghost struct FileDataView {
    pub is_changed: bool,
    pub front_matter: Seq<char>,
    pub content: Seq<char>,
}

impl View for FileData {
    type V = FileDataView;

    closed spec fn view(&self) -> FileDataView {
        FileDataView {
            is_changed: self.is_changed,
            front_matter: self.front_matter@,
            content: self.content@,
        }
    }
}

impl FileData {
    /// A page with this front matter and body, not changed.
    pub fn new(front_matter: String, content: String) -> (r: Self)
        ensures
            r@ == (FileDataView { is_changed: false, front_matter: front_matter@, content: content@ }),
    {
        Self { is_changed: false, front_matter, content }
    }

    /// Splits the text of a page into front matter and body.
    pub fn new_from_text(text: &str) -> (r: Result<Self, ProcessError>)
        ensures
            match front_matter_parts(text@) {
                None => r == Err::<Self, ProcessError>(ProcessError::NoFrontMatter),
                Some((front_matter, content)) => r matches Ok(data) && data@ == (FileDataView {
                    is_changed: false,
                    front_matter,
                    content,
                }),
            },
    {
        match split_front_matter(text) {
            None => Err(ProcessError::NoFrontMatter),
            Some((front_matter, content)) => Ok(Self::new(front_matter, content)),
        }
    }

    /// Whether the front matter was changed.
    pub fn is_changed(&self) -> (r: bool)
        ensures
            r == self@.is_changed,
    {
        self.is_changed
    }

    /// The front matter text, between the markers.
    pub fn front_matter(&self) -> (r: &str)
        ensures
            r@ == self@.front_matter,
    {
        self.front_matter.as_str()
    }

    /// The body of the page.
    pub fn content(&self) -> (r: &str)
        ensures
            r@ == self@.content,
    {
        self.content.as_str()
    }

    /// Sets `date` and `updated` in the front matter as reconciliation
    /// decides, from the page's last recorded edit and today. The front
    /// matter is written anew only where a value changes.
    pub fn update_front_matter(
        &mut self,
        last_edit_date: Option<CalendarDate>,
        today: CalendarDate,
    ) -> (r: Result<(), ProcessError>)
        ensures
            match toml_parse(old(self)@.front_matter) {
                None => r == Err::<(), ProcessError>(ProcessError::InvalidToml) && final(self)@
                    == old(self)@,
                Some(fields) => if !last_edit_valid(last_edit_date, today) {
                    &&& r == Err::<(), ProcessError>(future_edit_error(last_edit_date, today))
                    &&& final(self)@ == old(self)@
                } else {
                    let rec = reconciled_for(fields, last_edit_date, today);
                    &&& r is Ok
                    &&& final(self)@.content == old(self)@.content
                    &&& final(self)@.is_changed == (old(self)@.is_changed || rec.changed)
                    &&& !rec.changed ==> final(self)@.front_matter == old(self)@.front_matter
                    &&& rec.changed ==> exists|doc: toml_edit::Document|
                        toml_fields(doc) == reconciled_fields(fields, rec) && final(self)@.front_matter
                            == #[trigger] toml_text(doc)
                },
            },
    {
        let mut doc = match parse_document(self.front_matter.as_str()) {
            Ok(doc) => doc,
            Err(_) => return Err(ProcessError::InvalidToml),
        };
        let org_date = field_value(&doc, "date");
        let org_updated = field_value(&doc, "updated");
        let rec = match reconcile(last_edit_date, org_date, org_updated, today) {
            Ok(rec) => rec,
            Err(e) => return Err(e),
        };
        if rec.changed {
            let ghost fields = toml_fields(doc);
            proof {
                reveal_strlit("date");
                reveal_strlit("updated");
            }
            // A key that already holds its new date keeps its own text.
            if org_date != FieldValue::Date(rec.date) {
                set_date(&mut doc, "date", rec.date);
            } else {
                assert(fields.insert("date"@, FieldValue::Date(rec.date)) =~= fields);
            }
            match rec.updated {
                Some(u) => {
                    if org_updated != FieldValue::Date(u) {
                        set_date(&mut doc, "updated", u);
                    } else {
                        assert(toml_fields(doc).insert("updated"@, FieldValue::Date(u))
                            =~= toml_fields(doc));
                    }
                },
                None => remove_field(&mut doc, "updated"),
            }
            assert(toml_fields(doc) =~= reconciled_fields(fields, rec));
            self.front_matter = document_text(&doc);
            self.is_changed = true;
        }
        Ok(())
    }

    /// The text of the page, to be written where it was read. Fails where
    /// nothing changed, since writing would only put back what is there.
    pub fn render(&self) -> (r: Result<String, ProcessError>)
        ensures
            self@.is_changed ==> (r matches Ok(text) && text@ == rendered(
                self@.front_matter,
                self@.content,
            )),
            !self@.is_changed ==> r == Err::<String, ProcessError>(ProcessError::NotChanged),
    {
        if !self.is_changed {
            return Err(ProcessError::NotChanged);
        }
        Ok(render_front_matter(self.front_matter.as_str(), self.content.as_str()))
    }
}

/// Processes the text of one page: splits off its front matter, reconciles
/// `date` and `updated`, and gives the new text of the page where either
/// changed, `None` where the page is to stay as it is.
pub fn process_file(
    text: &str,
    last_edit_date: Option<CalendarDate>,
    today: CalendarDate,
) -> (r: Result<Option<String>, ProcessError>)
    ensures
        match front_matter_parts(text@) {
            None => r == Err::<Option<String>, ProcessError>(ProcessError::NoFrontMatter),
            Some((front_matter, body)) => match toml_parse(front_matter) {
                None => r == Err::<Option<String>, ProcessError>(ProcessError::InvalidToml),
                Some(fields) => if !last_edit_valid(last_edit_date, today) {
                    r == Err::<Option<String>, ProcessError>(future_edit_error(last_edit_date, today))
                } else {
                    let rec = reconciled_for(fields, last_edit_date, today);
                    &&& !rec.changed ==> r == Ok::<Option<String>, ProcessError>(None)
                    &&& rec.changed ==> exists|doc: toml_edit::Document|
                        toml_fields(doc) == reconciled_fields(fields, rec) && (r matches Ok(Some(page))
                            && page@ == rendered(#[trigger] toml_text(doc), body))
                },
            },
        },
{
    let mut data = match FileData::new_from_text(text) {
        Ok(data) => data,
        Err(e) => return Err(e),
    };
    match data.update_front_matter(last_edit_date, today) {
        Ok(()) => {},
        Err(e) => return Err(e),
    }
    if data.is_changed() {
        Ok(Some(render_front_matter(data.front_matter(), data.content())))
    } else {
        Ok(None)
    }
}

/// The name of a Markdown file: it has the extension `md`, that is, it
/// ends in `.md` with something before the dot.
pub open spec fn is_markdown_name(name: Seq<char>) -> bool {
    name.len() >= 4 && name.subrange(name.len() - 3, name.len() as int) == seq!['.', 'm', 'd']
}

/// The name of a section's index page, which carries no dates of its own.
pub open spec fn is_section_index_name(name: Seq<char>) -> bool {
    name == seq!['_', 'i', 'n', 'd', 'e', 'x', '.', 'm', 'd']
}

/// Whether the file with this name is left alone: only Markdown pages other
/// than section indexes are processed.
pub fn should_skip_file(file_name: &str) -> (r: bool)
    ensures
        r == (!is_markdown_name(file_name@) || is_section_index_name(file_name@)),
{
    let cs = chars_of(file_name);
    let n = cs.len();
    let is_markdown = n >= 4 && cs[n - 3] == '.' && cs[n - 2] == 'm' && cs[n - 1] == 'd';
    proof {
        if n >= 4 {
            assert(is_markdown == (cs@.subrange(n - 3, n as int) =~= seq!['.', 'm', 'd']));
        }
    }
    let is_index = n == 9 && cs[0] == '_' && cs[1] == 'i' && cs[2] == 'n' && cs[3] == 'd'
        && cs[4] == 'e' && cs[5] == 'x' && cs[6] == '.' && cs[7] == 'm' && cs[8] == 'd';
    assert(is_index == (cs@ =~= seq!['_', 'i', 'n', 'd', 'e', 'x', '.', 'm', 'd']));
    !is_markdown || is_index
}

} // verus!
