//! Which graphics backends may be used, as the `WGPU_BACKEND` variable asks for them.

use vstd::prelude::*;

use crate::text;

verus! {

/// A set of graphics backends.
#[derive(Clone, Copy, Debug, PartialEq, Eq, Structural)]
pub struct Backends {
    pub vulkan: bool,
    pub gl: bool,
}

/// What a value of `WGPU_BACKEND` asks for.
#[derive(Clone, Copy, Debug, PartialEq, Eq, Structural)]
pub enum BackendRequest {
    /// GL and nothing else.
    Gl,
    /// Vulkan and nothing else.
    Vulkan,
    /// A value that names neither backend.
    Unrecognised,
    /// No value at all.
    Unset,
}

/// The request that a value of `WGPU_BACKEND` makes. The case of its letters does not
/// matter; "vulkan" wins over "gl", and "gl" over "vk".
pub open spec fn requested(value: Option<Seq<char>>) -> BackendRequest {
    match value {
        None => BackendRequest::Unset,
        Some(s) => {
            let lower = text::ascii_lower_all(s);
            if text::occurs_in("vulkan"@, lower) {
                BackendRequest::Vulkan
            } else if text::occurs_in("gl"@, lower) {
                BackendRequest::Gl
            } else if text::occurs_in("vk"@, lower) {
                BackendRequest::Vulkan
            } else {
                BackendRequest::Unrecognised
            }
        },
    }
}

/// The text of an optional string slice.
pub open spec fn optional_text(value: Option<&str>) -> Option<Seq<char>> {
    match value {
        None => None,
        Some(s) => Some(s@),
    }
}

/// Reads the request out of the value of `WGPU_BACKEND`.
pub fn backend_request(value: Option<&str>) -> (request: BackendRequest)
    ensures
        request == requested(optional_text(value)),
        value is None ==> request == BackendRequest::Unset,
        value matches Some(text) ==> request == requested(Some(text@)),
{
    match value {
        None => BackendRequest::Unset,
        Some(s) => {
            let lower: Vec<char> = text::to_ascii_lowercase(s);
            if text::contains(&lower, "gl") && !text::contains(&lower, "vulkan") {
                BackendRequest::Gl
            } else if text::contains(&lower, "vulkan") || text::contains(&lower, "vk") {
                BackendRequest::Vulkan
            } else {
                BackendRequest::Unrecognised
            }
        },
    }
}

impl BackendRequest {
    /// The backends that a request allows: one of them where it names one, both otherwise.
    pub open spec fn allows(self) -> Backends {
        Backends { vulkan: self != BackendRequest::Gl, gl: self != BackendRequest::Vulkan }
    }

    /// The backends that this request allows.
    pub fn allowed_backends(self) -> (backends: Backends)
        ensures
            backends == self.allows(),
    {
        match self {
            BackendRequest::Gl => Backends { vulkan: false, gl: true },
            BackendRequest::Vulkan => Backends { vulkan: true, gl: false },
            BackendRequest::Unrecognised => Backends { vulkan: true, gl: true },
            BackendRequest::Unset => Backends { vulkan: true, gl: true },
        }
    }
}

/// Whatever `WGPU_BACKEND` holds, some backend is allowed; and without a value, or with one
/// that names no backend, Vulkan and GL both are.
pub proof fn some_backend_is_allowed(value: Option<Seq<char>>)
    ensures
        requested(value).allows().vulkan || requested(value).allows().gl,
        (value is None || requested(value) == BackendRequest::Unrecognised)
            ==> requested(value).allows() == (Backends { vulkan: true, gl: true }),
{
}

/// Two texts differ at most in the case of their ASCII letters.
pub open spec fn same_but_for_case(a: Seq<char>, b: Seq<char>) -> bool {
    text::ascii_lower_all(a) == text::ascii_lower_all(b)
}

/// Two values of `WGPU_BACKEND` that differ only in the case of their letters ask for the
/// same backends.
pub proof fn case_does_not_matter(a: Seq<char>, b: Seq<char>)
    requires
        same_but_for_case(a, b),
    ensures
        requested(Some(a)) == requested(Some(b)),
{
}

/// The text holds a word, in capital or small letters or both.
pub open spec fn says(text: Seq<char>, small: Seq<char>, capital: Seq<char>) -> bool {
    exists|at: int| #[trigger] says_at(text, small, capital, at)
}

/// The text holds a word at this position, in capital or small letters or both.
pub open spec fn says_at(text: Seq<char>, small: Seq<char>, capital: Seq<char>, at: int) -> bool {
    &&& 0 <= at
    &&& at + small.len() <= text.len()
    &&& forall|j: int|
        0 <= j < small.len() ==> #[trigger] text[at + j] == small[j] || text[at + j] == capital[j]
}

proof fn a_word_is_said_in_any_case(text: Seq<char>, small: Seq<char>, capital: Seq<char>)
    requires
        small.len() == capital.len(),
        forall|j: int|
            0 <= j < small.len() ==> 'a' <= #[trigger] small[j] <= 'z' && capital[j] as int
                == small[j] as int - 32,
    ensures
        text::occurs_in(small, text::ascii_lower_all(text)) <==> says(text, small, capital),
{
    let lower = text::ascii_lower_all(text);
    if text::occurs_in(small, lower) {
        let at = choose|at: int| text::occurs_at(small, lower, at);
        assert forall|j: int| 0 <= j < small.len() implies #[trigger] text[at + j] == small[j]
            || text[at + j] == capital[j] by {
            assert(small[j] == lower[at + j]);
            text::only_capitals_are_lowered(text, at + j);
        }
        assert(says_at(text, small, capital, at));
    }
    if says(text, small, capital) {
        let at = choose|at: int| #[trigger] says_at(text, small, capital, at);
        assert forall|j: int| 0 <= j < small.len() implies small[j] == #[trigger] lower[at + j] by {
            assert(text[at + j] == small[j] || text[at + j] == capital[j]);
            text::only_capitals_are_lowered(text, at + j);
            assert('a' <= small[j] <= 'z');
        }
        assert(text::occurs_at(small, lower, at));
    }
}

/// What a value of `WGPU_BACKEND` asks for, by the words that it holds: GL exactly where it says
/// "gl" and not "vulkan"; Vulkan exactly where it says "vulkan", or "vk" without "gl"; and
/// neither where it says none of these words, or where there is no value. GL is then allowed
/// unless it is Vulkan that is asked for, and Vulkan unless it is GL.
pub proof fn a_value_asks_for_what_it_says(value: Option<Seq<char>>)
    ensures
        value is None <==> requested(value) == BackendRequest::Unset,
        value matches Some(text) ==> {
            let gl = says(text, "gl"@, "GL"@);
            let vulkan = says(text, "vulkan"@, "VULKAN"@);
            let vk = says(text, "vk"@, "VK"@);
            &&& requested(value) == BackendRequest::Gl <==> gl && !vulkan
            &&& requested(value) == BackendRequest::Vulkan <==> vulkan || (vk && !gl)
            &&& requested(value) == BackendRequest::Unrecognised <==> !gl && !vulkan && !vk
        },
        requested(value).allows().vulkan <==> requested(value) != BackendRequest::Gl,
        requested(value).allows().gl <==> requested(value) != BackendRequest::Vulkan,
{
    reveal_strlit("gl");
    reveal_strlit("GL");
    reveal_strlit("vulkan");
    reveal_strlit("VULKAN");
    reveal_strlit("vk");
    reveal_strlit("VK");
    if let Some(text) = value {
        a_word_is_said_in_any_case(text, "gl"@, "GL"@);
        a_word_is_said_in_any_case(text, "vulkan"@, "VULKAN"@);
        a_word_is_said_in_any_case(text, "vk"@, "VK"@);
    }
}

} // verus!
