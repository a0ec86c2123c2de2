//! Dialogue box: a named speaker and a list of pages the confirm key steps
//! through; the last page closes the box.

use vstd::prelude::*;

verus! {

pub struct Textbox {
    pub open: bool,
    pub name: String,
    pub texts: Vec<String>,
    pub textbox_index: usize,
}

impl Textbox {
    /// Structural invariant: an open box always points at an existing page.
    pub open spec fn wf(&self) -> bool {
        self.open ==> (self.textbox_index as int) < self.texts@.len()
    }

    pub fn new() -> (t: Self)
        ensures
            t.wf(),
            !t.open,
            t.name@ == Seq::<char>::empty(),
            t.texts@.len() == 0,
            t.textbox_index == 0,
    {
        Self { open: false, name: String::new(), texts: Vec::new(), textbox_index: 0 }
    }

    /// One tick: a confirm press on an open box turns the page, and on the
    /// last page closes the box and rewinds it.
    pub fn update(&mut self, confirm: bool)
        requires
            old(self).wf(),
        ensures
            final(self).wf(),
            final(self).name == old(self).name,
            final(self).texts == old(self).texts,
            !(confirm && old(self).open) ==> *final(self) == *old(self),
            confirm && old(self).open ==> ({
                if old(self).textbox_index + 1 == old(self).texts@.len() {
                    *final(self) == (Textbox { open: false, textbox_index: 0, ..*old(self) })
                } else {
                    *final(self) == (Textbox {
                        textbox_index: (old(self).textbox_index + 1) as usize,
                        ..*old(self)
                    })
                }
            }),
    {
        if confirm && self.open {
            let page_count = self.texts.len();
            if self.textbox_index + 1 == page_count {
                self.open = false;
                self.textbox_index = 0;
            } else {
                self.textbox_index = self.textbox_index + 1;
            }
        }
    }

    /// Open the box on a speaker and their pages; reading starts at the first
    /// page.
    pub fn set_textboxes(&mut self, name: String, texts: &Vec<String>)
        requires
            texts@.len() > 0,
        ensures
            final(self).wf(),
            final(self).open,
            final(self).name == name,
            final(self).textbox_index == 0,
            final(self).texts@.len() == texts@.len(),
            forall|i: int| 0 <= i < texts@.len() ==> #[trigger] final(self).texts@[i]@ == texts@[i]@,
    {
        self.open = true;
        self.name = name;
        self.texts = clone_texts(texts);
        self.textbox_index = 0;
    }

    pub fn is_open(&self) -> (r: bool)
        ensures
            r == self.open,
    {
        self.open
    }

    pub fn get_name(&self) -> (r: &String)
        ensures
            r == self.name,
    {
        &self.name
    }

    /// The page currently shown.
    pub fn current_text(&self) -> (r: &String)
        requires
            self.wf(),
            self.open,
        ensures
            r == self.texts@[self.textbox_index as int],
    {
        &self.texts[self.textbox_index]
    }
}

/// Copy a page list.
fn clone_texts(texts: &Vec<String>) -> (r: Vec<String>)
    ensures
        r@.len() == texts@.len(),
        forall|i: int| 0 <= i < texts@.len() ==> #[trigger] r@[i]@ == texts@[i]@,
{
    let mut out: Vec<String> = Vec::new();
    let mut i: usize = 0;
    while i < texts.len()
        invariant
            i <= texts@.len(),
            out@.len() == i,
            forall|j: int| 0 <= j < i ==> #[trigger] out@[j]@ == texts@[j]@,
        decreases texts@.len() - i,
    {
        out.push(texts[i].clone());
        i = i + 1;
    }
    out
}

} // verus!
