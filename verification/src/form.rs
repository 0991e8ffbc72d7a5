//! The task form: staging buffers for a create or edit operation, the
//! focused-field cycle, and the character-level editing rules.

use vstd::prelude::*;

use crate::models::TaskPriority;
use crate::text::{is_digit, is_digit_char};

verus! {

/// Which form field has input focus.
#[derive(PartialEq, Eq, Structural, Clone, Copy, Debug)]
pub enum FormField {
    Title,
    Priority,
    XP,
    DueDate,
    Description,
}

/// The field after the given one in the fixed Tab order.
pub open spec fn spec_next_field(f: FormField) -> FormField {
    match f {
        FormField::Title => FormField::Priority,
        FormField::Priority => FormField::XP,
        FormField::XP => FormField::DueDate,
        FormField::DueDate => FormField::Description,
        FormField::Description => FormField::Title,
    }
}

/// The field before the given one in the fixed Tab order.
pub open spec fn spec_prev_field(f: FormField) -> FormField {
    match f {
        FormField::Title => FormField::Description,
        FormField::Priority => FormField::Title,
        FormField::XP => FormField::Priority,
        FormField::DueDate => FormField::XP,
        FormField::Description => FormField::DueDate,
    }
}

/// Priority one step to the left: High -> Medium -> Low -> High.
pub open spec fn spec_priority_left(p: TaskPriority) -> TaskPriority {
    match p {
        TaskPriority::High => TaskPriority::Medium,
        TaskPriority::Medium => TaskPriority::Low,
        TaskPriority::Low => TaskPriority::High,
    }
}

/// Priority one step to the right: High -> Low -> Medium -> High.
pub open spec fn spec_priority_right(p: TaskPriority) -> TaskPriority {
    match p {
        TaskPriority::High => TaskPriority::Low,
        TaskPriority::Medium => TaskPriority::High,
        TaskPriority::Low => TaskPriority::Medium,
    }
}

/// The staging buffers of an in-progress task create or edit.
pub struct TaskForm {
    pub title: Vec<char>,
    pub description: Vec<char>,
    pub priority: TaskPriority,
    pub xp: Vec<char>,
    pub due_date: Vec<char>,
    pub active_field: FormField,
}

impl TaskForm {
    /// The blank form: empty buffers, medium priority, the default reward
    /// of 10 pre-filled, focus on the title.
    pub fn default() -> (r: TaskForm)
        ensures
            r.title@ == Seq::<char>::empty(),
            r.description@ == Seq::<char>::empty(),
            r.priority == TaskPriority::Medium,
            r.xp@ == seq!['1', '0'],
            r.due_date@ == Seq::<char>::empty(),
            r.active_field == FormField::Title,
    {
        let mut xp: Vec<char> = Vec::new();
        xp.push('1');
        xp.push('0');
        proof {
            assert(xp@ =~= seq!['1', '0']);
        }
        let r = TaskForm {
            title: Vec::new(),
            description: Vec::new(),
            priority: TaskPriority::Medium,
            xp,
            due_date: Vec::new(),
            active_field: FormField::Title,
        };
        proof {
            assert(r.title@ =~= Seq::<char>::empty());
            assert(r.description@ =~= Seq::<char>::empty());
            assert(r.due_date@ =~= Seq::<char>::empty());
        }
        r
    }

    /// Moves focus to the next field in the Tab order.
    pub fn next_field(&mut self)
        ensures
            final(self).active_field == spec_next_field(old(self).active_field),
            final(self).title == old(self).title,
            final(self).description == old(self).description,
            final(self).priority == old(self).priority,
            final(self).xp == old(self).xp,
            final(self).due_date == old(self).due_date,
    {
        self.active_field = match self.active_field {
            FormField::Title => FormField::Priority,
            FormField::Priority => FormField::XP,
            FormField::XP => FormField::DueDate,
            FormField::DueDate => FormField::Description,
            FormField::Description => FormField::Title,
        };
    }

    /// Moves focus to the previous field in the Tab order.
    pub fn prev_field(&mut self)
        ensures
            final(self).active_field == spec_prev_field(old(self).active_field),
            final(self).title == old(self).title,
            final(self).description == old(self).description,
            final(self).priority == old(self).priority,
            final(self).xp == old(self).xp,
            final(self).due_date == old(self).due_date,
    {
        self.active_field = match self.active_field {
            FormField::Title => FormField::Description,
            FormField::Priority => FormField::Title,
            FormField::XP => FormField::Priority,
            FormField::DueDate => FormField::XP,
            FormField::Description => FormField::DueDate,
        };
    }

    /// Cycles the staged priority one step to the left.
    pub fn priority_left(&mut self)
        ensures
            final(self).priority == spec_priority_left(old(self).priority),
            final(self).title == old(self).title,
            final(self).description == old(self).description,
            final(self).xp == old(self).xp,
            final(self).due_date == old(self).due_date,
            final(self).active_field == old(self).active_field,
    {
        self.priority = match self.priority {
            TaskPriority::High => TaskPriority::Medium,
            TaskPriority::Medium => TaskPriority::Low,
            TaskPriority::Low => TaskPriority::High,
        };
    }

    /// Cycles the staged priority one step to the right.
    pub fn priority_right(&mut self)
        ensures
            final(self).priority == spec_priority_right(old(self).priority),
            final(self).title == old(self).title,
            final(self).description == old(self).description,
            final(self).xp == old(self).xp,
            final(self).due_date == old(self).due_date,
            final(self).active_field == old(self).active_field,
    {
        self.priority = match self.priority {
            TaskPriority::High => TaskPriority::Low,
            TaskPriority::Medium => TaskPriority::High,
            TaskPriority::Low => TaskPriority::Medium,
        };
    }

    /// Appends a typed character to the focused text buffer. The reward
    /// field silently rejects everything but ASCII digits; the priority
    /// field takes no text at all.
    pub fn insert_char(&mut self, c: char)
        ensures
            final(self).priority == old(self).priority,
            final(self).active_field == old(self).active_field,
            ({
                let o = *old(self);
                let f = *final(self);
                match o.active_field {
                    FormField::Title => f.title@ == o.title@.push(c) && f.description
                        == o.description && f.xp == o.xp && f.due_date == o.due_date,
                    FormField::Description => f.description@ == o.description@.push(c) && f.title
                        == o.title && f.xp == o.xp && f.due_date == o.due_date,
                    FormField::XP => f.xp@ == (if is_digit(c) {
                        o.xp@.push(c)
                    } else {
                        o.xp@
                    }) && f.title == o.title && f.description == o.description && f.due_date
                        == o.due_date,
                    FormField::DueDate => f.due_date@ == o.due_date@.push(c) && f.title == o.title
                        && f.description == o.description && f.xp == o.xp,
                    FormField::Priority => f.title == o.title && f.description == o.description
                        && f.xp == o.xp && f.due_date == o.due_date,
                }
            }),
    {
        match self.active_field {
            FormField::Title => self.title.push(c),
            FormField::Description => self.description.push(c),
            FormField::XP => {
                if is_digit_char(c) {
                    self.xp.push(c);
                }
            },
            FormField::DueDate => self.due_date.push(c),
            FormField::Priority => {},
        }
    }

    /// Removes the last character of the focused text buffer, if any.
    pub fn backspace(&mut self)
        ensures
            final(self).priority == old(self).priority,
            final(self).active_field == old(self).active_field,
            ({
                let o = *old(self);
                let f = *final(self);
                match o.active_field {
                    FormField::Title => f.title@ == chop(o.title@) && f.description
                        == o.description && f.xp == o.xp && f.due_date == o.due_date,
                    FormField::Description => f.description@ == chop(o.description@) && f.title
                        == o.title && f.xp == o.xp && f.due_date == o.due_date,
                    FormField::XP => f.xp@ == chop(o.xp@) && f.title == o.title && f.description
                        == o.description && f.due_date == o.due_date,
                    FormField::DueDate => f.due_date@ == chop(o.due_date@) && f.title == o.title
                        && f.description == o.description && f.xp == o.xp,
                    FormField::Priority => f.title == o.title && f.description == o.description
                        && f.xp == o.xp && f.due_date == o.due_date,
                }
            }),
    {
        match self.active_field {
            FormField::Title => {
                let _ = self.title.pop();
            },
            FormField::Description => {
                let _ = self.description.pop();
            },
            FormField::XP => {
                let _ = self.xp.pop();
            },
            FormField::DueDate => {
                let _ = self.due_date.pop();
            },
            FormField::Priority => {},
        }
    }
}

/// Two forms holding the same staged content and focus.
pub open spec fn form_eq(a: TaskForm, b: TaskForm) -> bool {
    &&& a.title@ == b.title@
    &&& a.description@ == b.description@
    &&& a.priority == b.priority
    &&& a.xp@ == b.xp@
    &&& a.due_date@ == b.due_date@
    &&& a.active_field == b.active_field
}

/// A buffer with its last character removed; an empty buffer stays empty.
pub open spec fn chop(s: Seq<char>) -> Seq<char> {
    if s.len() == 0 {
        s
    } else {
        s.drop_last()
    }
}

/// Cycling the focused field five times forward, or five times backward,
/// returns to the starting field, and one backward step undoes one forward
/// step.
pub proof fn lemma_field_cycle(f: FormField)
    ensures
        spec_next_field(
            spec_next_field(spec_next_field(spec_next_field(spec_next_field(f)))),
        ) == f,
        spec_prev_field(
            spec_prev_field(spec_prev_field(spec_prev_field(spec_prev_field(f)))),
        ) == f,
        spec_prev_field(spec_next_field(f)) == f,
{
}

/// The two priority rotations are mutually inverse three-cycles, not mirror
/// images of a toggle: three equal steps return to the start, and a left
/// step undoes a right step.
pub proof fn lemma_priority_cycles(p: TaskPriority)
    ensures
        spec_priority_left(spec_priority_left(spec_priority_left(p))) == p,
        spec_priority_right(spec_priority_right(spec_priority_right(p))) == p,
        spec_priority_left(spec_priority_right(p)) == p,
        spec_priority_right(spec_priority_left(p)) == p,
{
}

} // verus!
