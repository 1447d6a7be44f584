//! The payload that the status line is made from, and the records of a
//! transcript.

use crate::text::str_eq;
use vstd::prelude::*;

verus! {

/// What the caller was handed: every part of it may be missing.
#[derive(Debug)]
pub struct Input {
    pub model: Option<Model>,
    pub workspace: Option<Workspace>,
    pub cwd: Option<String>,
    pub transcript_path: Option<String>,
}

#[derive(Debug)]
pub struct Model {
    pub display_name: Option<String>,
}

#[derive(Debug)]
pub struct Workspace {
    pub current_dir: Option<String>,
}

#[derive(Debug)]
pub struct Message {
    pub usage: Option<Usage>,
}

/// The token counts of one turn. A count that is missing stands for 0.
#[derive(Debug)]
pub struct Usage {
    input_tokens: Option<u64>,
    output_tokens: Option<u64>,
    cache_creation_input_tokens: Option<u64>,
    cache_read_input_tokens: Option<u64>,
}

/// One record of a transcript.
#[derive(Debug)]
pub struct TranscriptEntry {
    pub entry_type: Option<String>,
    pub message: Option<Message>,
}

/// A count that may be missing, as a number.
pub open spec fn or_zero(count: Option<u64>) -> nat {
    match count {
        Some(n) => n as nat,
        None => 0,
    }
}

impl Usage {
    pub fn new(
        input_tokens: Option<u64>,
        output_tokens: Option<u64>,
        cache_creation_input_tokens: Option<u64>,
        cache_read_input_tokens: Option<u64>,
    ) -> (r: Self)
        ensures
            r.total() == or_zero(input_tokens) + or_zero(output_tokens) + or_zero(
                cache_creation_input_tokens,
            ) + or_zero(cache_read_input_tokens),
    {
        Usage {
            input_tokens,
            output_tokens,
            cache_creation_input_tokens,
            cache_read_input_tokens,
        }
    }

    /// The four counts added up.
    pub closed spec fn total(&self) -> nat {
        or_zero(self.input_tokens) + or_zero(self.output_tokens) + or_zero(
            self.cache_creation_input_tokens,
        ) + or_zero(self.cache_read_input_tokens)
    }

    /// The total, unless it is more than a `u64` holds.
    pub fn checked_total(&self) -> (r: Option<u64>)
        ensures
            match r {
                Some(t) => t == self.total(),
                None => self.total() > u64::MAX,
            },
    {
        let a = match self.input_tokens {
            Some(n) => n,
            None => 0,
        };
        let b = match self.output_tokens {
            Some(n) => n,
            None => 0,
        };
        let c = match self.cache_creation_input_tokens {
            Some(n) => n,
            None => 0,
        };
        let d = match self.cache_read_input_tokens {
            Some(n) => n,
            None => 0,
        };
        match a.checked_add(b) {
            Some(ab) => match ab.checked_add(c) {
                Some(abc) => abc.checked_add(d),
                None => None,
            },
            None => None,
        }
    }
}

impl TranscriptEntry {
    /// The entry is a turn of the assistant.
    pub open spec fn assistant(&self) -> bool {
        self.entry_type matches Some(t) && t@ == "assistant"@
    }

    /// The total usage that the entry carries, if it carries usage.
    pub open spec fn usage_total(&self) -> Option<nat> {
        match self.message {
            Some(message) => match message.usage {
                Some(usage) => Some(usage.total()),
                None => None,
            },
            None => None,
        }
    }

    /// The usage that counts: that of an assistant entry.
    pub open spec fn counted_usage(&self) -> Option<nat> {
        if self.assistant() {
            self.usage_total()
        } else {
            None
        }
    }

    /// The usage of the entry, if it carries any, can be held in a `u64`.
    pub open spec fn usage_in_range(&self) -> bool {
        self.usage_total() matches Some(total) ==> total <= u64::MAX
    }

    /// Tests [`Self::usage_in_range`].
    pub fn usage_fits(&self) -> (r: bool)
        ensures
            r == self.usage_in_range(),
    {
        match &self.message {
            Some(message) => match &message.usage {
                Some(usage) => usage.checked_total().is_some(),
                None => true,
            },
            None => true,
        }
    }

    pub fn is_assistant(&self) -> (r: bool)
        ensures
            r == self.assistant(),
    {
        match &self.entry_type {
            Some(t) => str_eq(t.as_str(), "assistant"),
            None => false,
        }
    }

    /// The four counts of the entry added up, a missing one as 0; `None`
    /// where the entry has no message or the message no usage.
    pub fn usage(self) -> (r: Option<u64>)
        requires
            self.usage_in_range(),
        ensures
            match r {
                Some(total) => self.usage_total() == Some(total as nat),
                None => self.usage_total() is None,
            },
    {
        match self.message {
            Some(message) => match message.usage {
                Some(usage) => usage.checked_total(),
                None => None,
            },
            None => None,
        }
    }
}

impl Input {
    /// The directory to work in: the workspace's, else `cwd`, else `.`.
    pub open spec fn working_dir(&self) -> Seq<char> {
        match self.workspace {
            Some(Workspace { current_dir: Some(dir) }) => dir@,
            _ => match self.cwd {
                Some(dir) => dir@,
                None => "."@,
            },
        }
    }

    /// The payload names no directory, neither for the workspace nor as `cwd`.
    pub open spec fn names_no_dir(&self) -> bool {
        &&& self.workspace matches Some(workspace) ==> workspace.current_dir is None
        &&& self.cwd is None
    }

    /// The model's name to show: its display name, else `Unknown`.
    pub open spec fn model_label(&self) -> Seq<char> {
        match self.model {
            Some(Model { display_name: Some(name) }) => name@,
            _ => "Unknown"@,
        }
    }

    /// The directory to work in.
    pub fn current_dir(&self) -> (r: String)
        ensures
            r@ == self.working_dir(),
            self.workspace matches Some(Workspace { current_dir: Some(dir) }) ==> r@ == dir@,
            self.names_no_dir() ==> r@ == "."@,
    {
        if let Some(workspace) = &self.workspace {
            if let Some(dir) = &workspace.current_dir {
                return dir.clone();
            }
        }
        match &self.cwd {
            Some(dir) => dir.clone(),
            None => String::from_str("."),
        }
    }

    /// The model's name to show.
    pub fn model_name(&self) -> (r: String)
        ensures
            r@ == self.model_label(),
    {
        if let Some(model) = &self.model {
            if let Some(name) = &model.display_name {
                return name.clone();
            }
        }
        String::from_str("Unknown")
    }
}

} // verus!
