//! Clipboard: the backend trait, and the conversions between Rust text and
//! the NUL-terminated C strings that dear imgui exchanges.

use vstd::prelude::*;

use vstd::string::StringSliceAdditionalSpecFns;
use vstd::utf8::{
    char_is_scalar, decode_utf8, encode_scalar, encode_utf8, encode_utf8_decode_utf8,
    encode_utf8_valid_utf8, valid_utf8,
};

verus! {

/// `core::str::Utf8Error`, the error of a failed UTF-8 decoding.
#[verifier::external_type_specification]
#[verifier::external_body]
pub struct ExUtf8Error(core::str::Utf8Error);

/// `core::str::from_utf8` succeeds exactly on valid UTF-8, and the text it
/// returns is the decoding of the bytes.
pub assume_specification[ core::str::from_utf8 ](v: &[u8]) -> (r: Result<&str, core::str::Utf8Error>)
    ensures
        r is Ok <==> valid_utf8(v@),
        r matches Ok(s) ==> s@ == decode_utf8(v@),
;

/// Trait for clipboard backends
pub trait ClipboardBackend: 'static {
    /// Returns the current clipboard contents as an owned string, or None if the clipboard is
    /// empty or inaccessible.
    fn get(&mut self) -> Option<String>;

    /// Sets the clipboard contents.
    fn set(&mut self, value: &str);
}

/// A clipboard backend that holds nothing and ignores what it is given.
pub struct DummyClipboardContext;

impl ClipboardBackend for DummyClipboardContext {
    fn get(&mut self) -> (r: Option<String>)
        ensures
            r is None,
    {
        None
    }

    fn set(&mut self, _value: &str) {
    }
}

/// The bytes hold no NUL.
pub open spec fn nul_free(bytes: Seq<u8>) -> bool {
    forall|i: int| 0 <= i < bytes.len() ==> bytes[i] != 0
}

/// `n` is the length of the C string at the start of `raw`: the index of its
/// first NUL.
pub open spec fn is_c_str_len(raw: Seq<u8>, n: int) -> bool {
    &&& 0 <= n < raw.len()
    &&& raw[n] == 0
    &&& nul_free(raw.take(n))
}

/// The buffer holds a NUL, so that it starts with a C string.
pub open spec fn holds_c_str(raw: Seq<u8>) -> bool {
    exists|n: int| is_c_str_len(raw, n)
}

/// The length of the C string at the start of `raw`.
pub open spec fn c_str_len(raw: Seq<u8>) -> int {
    choose|n: int| is_c_str_len(raw, n)
}

/// The C string at the start of `raw`, without its NUL.
pub open spec fn c_str_bytes(raw: Seq<u8>) -> Seq<u8> {
    raw.take(c_str_len(raw))
}

/// The text of the C string at the start of `raw`, when it is valid UTF-8.
pub open spec fn c_str_text(raw: Seq<u8>) -> Option<Seq<char>> {
    if valid_utf8(c_str_bytes(raw)) {
        Some(decode_utf8(c_str_bytes(raw)))
    } else {
        None
    }
}

/// A buffer starts with exactly one C string.
pub proof fn lemma_c_str_len_unique(raw: Seq<u8>, n: int)
    requires
        is_c_str_len(raw, n),
    ensures
        holds_c_str(raw),
        c_str_len(raw) == n,
{
    let m = c_str_len(raw);
    assert(is_c_str_len(raw, m));
    if m < n {
        assert(raw.take(n)[m] == raw[m]);
    } else if n < m {
        assert(raw.take(m)[n] == raw[n]);
    }
}

/// The length of the C string at the start of `raw`.
fn c_str_len_of(raw: &[u8]) -> (r: usize)
    requires
        holds_c_str(raw@),
    ensures
        r == c_str_len(raw@),
{
    let ghost n = c_str_len(raw@);
    let mut i: usize = 0;
    while raw[i] != 0
        invariant
            is_c_str_len(raw@, n),
            0 <= i <= n,
            forall|j: int| 0 <= j < i ==> raw@[j] != 0,
        decreases n - i,
    {
        assert(raw@.take(n)[i as int] == raw@[i as int]);
        i += 1;
    }
    proof {
        if i < n {
            assert(raw@.take(n)[i as int] == raw@[i as int]);
        }
        assert(nul_free(raw@.take(i as int)));
        lemma_c_str_len_unique(raw@, i as int);
    }
    i
}

/// The text of the C string at the start of `raw`, when it is valid UTF-8:
/// what `CStr::from_ptr(..).to_str()` reads.
pub fn c_str_to_str(raw: &[u8]) -> (r: Option<&str>)
    requires
        holds_c_str(raw@),
    ensures
        r is Some <==> c_str_text(raw@) is Some,
        r matches Some(s) ==> c_str_text(raw@) == Some(s@),
{
    let n = c_str_len_of(raw);
    let (bytes, _) = raw.split_at(n);
    match core::str::from_utf8(bytes) {
        Ok(s) => Some(s),
        Err(_) => None,
    }
}

/// The clipboard text that dear imgui returns, read from the C string it points
/// at: `None` for a null pointer, for empty text, or for text that is not UTF-8.
pub fn decode_clipboard_text(raw: Option<&[u8]>) -> (r: Option<String>)
    requires
        raw matches Some(b) ==> holds_c_str(b@),
    ensures
        raw is None ==> r is None,
        raw matches Some(b) ==> {
            &&& b[0] == 0 ==> r is None
            &&& b[0] != 0 ==> (r is Some <==> c_str_text(b@) is Some)
            &&& b[0] != 0 ==> (r matches Some(s) ==> c_str_text(b@) == Some(s@))
        },
{
    match raw {
        None => None,
        Some(bytes) => {
            if bytes[0] == 0 {
                None
            } else {
                match c_str_to_str(bytes) {
                    Some(s) => Some(s.to_owned()),
                    None => None,
                }
            }
        },
    }
}

/// The C string of the text as `CString::new` builds it: the UTF-8 bytes and a
/// NUL, or `None` when the text holds a NUL.
pub fn c_string_bytes(text: &str) -> (r: Option<Vec<u8>>)
    ensures
        r is Some <==> nul_free(text.spec_bytes()),
        r matches Some(v) ==> v@ == text.spec_bytes().push(0),
{
    let bytes = text.as_bytes();
    let n = bytes.len();
    let mut out: Vec<u8> = Vec::new();
    for i in 0..n
        invariant
            n == bytes@.len(),
            bytes@ == text.spec_bytes(),
            out@ == bytes@.take(i as int),
            nul_free(out@),
    {
        if bytes[i] == 0 {
            proof {
                assert(!nul_free(bytes@)) by {
                    assert(bytes@[i as int] == 0);
                }
            }
            return None;
        }
        out.push(bytes[i]);
        proof {
            assert(out@ =~= bytes@.take(i + 1));
        }
    }
    proof {
        assert(out@ =~= bytes@);
    }
    out.push(0);
    Some(out)
}

/// The C string handed to dear imgui to set the clipboard: the text and a NUL,
/// or empty when the text holds a NUL.
pub fn encode_clipboard_text(text: &str) -> (r: Vec<u8>)
    ensures
        nul_free(text.spec_bytes()) ==> r@ == text.spec_bytes().push(0),
        !nul_free(text.spec_bytes()) ==> r@ == seq![0u8],
{
    match c_string_bytes(text) {
        Some(v) => v,
        None => {
            let mut v: Vec<u8> = Vec::new();
            v.push(0);
            proof {
                assert(v@ =~= seq![0u8]);
            }
            v
        },
    }
}

/// The UTF-8 encoding of a character holds a NUL only for the NUL character,
/// and is never empty.
pub proof fn lemma_encode_scalar_nul(c: char)
    ensures
        encode_scalar(c as u32).len() > 0,
        nul_free(encode_scalar(c as u32)) <==> c != '\0',
{
    broadcast use char_is_scalar;

    let v = c as u32;
    let e = encode_scalar(v);
    if v == 0 {
        assert((0u32 & 0x7F) as u8 == 0) by (bit_vector);
        assert(e[0] == 0);
    } else {
        assert(v != 0 && v <= 0x7F ==> (v & 0x7F) as u8 != 0) by (bit_vector);
        assert((0xC0u8 | ((v >> 6) & 0x1F) as u8) != 0) by (bit_vector);
        assert((0xE0u8 | ((v >> 12) & 0x0F) as u8) != 0) by (bit_vector);
        assert((0xF0u8 | ((v >> 18) & 0x7) as u8) != 0) by (bit_vector);
        assert((0x80u8 | (v & 0x3F) as u8) != 0) by (bit_vector);
        assert((0x80u8 | ((v >> 6) & 0x3F) as u8) != 0) by (bit_vector);
        assert((0x80u8 | ((v >> 12) & 0x3F) as u8) != 0) by (bit_vector);
    }
}

/// The UTF-8 encoding of a text holds a NUL exactly when the text holds the
/// NUL character, and is empty exactly when the text is.
pub proof fn lemma_encode_utf8_nul(text: Seq<char>)
    ensures
        nul_free(encode_utf8(text)) <==> !text.contains('\0'),
        encode_utf8(text).len() == 0 <==> text.len() == 0,
    decreases text.len(),
{
    if text.len() > 0 {
        let head = encode_scalar(text[0] as u32);
        let tail = encode_utf8(text.drop_first());
        lemma_encode_scalar_nul(text[0]);
        lemma_encode_utf8_nul(text.drop_first());
        assert(encode_utf8(text) == head + tail);
        if nul_free(head + tail) {
            assert forall|i: int| 0 <= i < head.len() implies head[i] != 0 by {
                assert((head + tail)[i] == head[i]);
            }
            assert forall|i: int| 0 <= i < tail.len() implies tail[i] != 0 by {
                assert((head + tail)[head.len() + i] == tail[i]);
            }
            assert forall|i: int| 0 <= i < text.len() implies text[i] != '\0' by {
                if i > 0 {
                    assert(text.drop_first()[i - 1] == text[i]);
                }
            }
        } else {
            if nul_free(head) && nul_free(tail) {
                assert(nul_free(head + tail));
            }
            if !nul_free(tail) {
                let k = choose|k: int| 0 <= k < text.drop_first().len() && text.drop_first()[k] == '\0';
                assert(text[k + 1] == '\0');
            }
        }
    }
}

/// Setting the clipboard to a non-empty text without the NUL character, then
/// reading it, gives that text back.
pub proof fn lemma_clipboard_text_roundtrip(text: Seq<char>)
    requires
        text.len() > 0,
        !text.contains('\0'),
    ensures
        ({
            let raw = encode_utf8(text).push(0);
            &&& holds_c_str(raw)
            &&& raw[0] != 0
            &&& c_str_text(raw) == Some(text)
        }),
{
    broadcast use encode_utf8_valid_utf8;

    lemma_encode_utf8_nul(text);
    let bytes = encode_utf8(text);
    let raw = bytes.push(0);
    assert(raw.take(bytes.len() as int) =~= bytes);
    lemma_c_str_len_unique(raw, bytes.len() as int);
    assert(raw[0] == bytes[0]);
    encode_utf8_decode_utf8(text);
}

/// The backend a clipboard context holds: the built-in dummy, or the one its
/// user gave.
pub enum ContextBackend<B> {
    Dummy(DummyClipboardContext),
    User(B),
}

/// Holds the clipboard backend and the last text it gave, kept as a C string
/// so that dear imgui can read it.
pub struct ClipboardContext<B: ClipboardBackend> {
    backend: ContextBackend<B>,
    last_value: Vec<u8>,
    /// What the backend's `get` returned, one entry per call, in order.
    fetched: Ghost<Seq<Option<Seq<char>>>>,
    /// Every text handed to the backend's `set`, in order.
    handed: Ghost<Seq<Seq<char>>>,
}

impl<B: ClipboardBackend> View for ClipboardContext<B> {
    type V = Seq<u8>;

    /// The last text the backend gave, with its NUL.
    closed spec fn view(&self) -> Seq<u8> {
        self.last_value@
    }
}

/// The empty C string: a lone NUL.
fn empty_c_string() -> (r: Vec<u8>)
    ensures
        r@ == seq![0u8],
{
    let mut v: Vec<u8> = Vec::new();
    v.push(0);
    proof {
        assert(v@ =~= seq![0u8]);
    }
    v
}

impl ClipboardContext<DummyClipboardContext> {
    /// A context around the dummy backend, which holds nothing.
    pub fn dummy() -> (r: ClipboardContext<DummyClipboardContext>)
        ensures
            r@ == seq![0u8],
            r.backend_of() == ContextBackend::<DummyClipboardContext>::Dummy(DummyClipboardContext),
            r.fetched_texts() == Seq::<Option<Seq<char>>>::empty(),
            r.handed_texts() == Seq::<Seq<char>>::empty(),
    {
        ClipboardContext {
            backend: ContextBackend::Dummy(DummyClipboardContext),
            last_value: empty_c_string(),
            fetched: Ghost(Seq::empty()),
            handed: Ghost(Seq::empty()),
        }
    }
}

impl<B: ClipboardBackend> ClipboardContext<B> {
    /// The backend the context holds.
    pub closed spec fn backend_of(self) -> ContextBackend<B> {
        self.backend
    }

    /// What the backend's `get` returned, one entry per call, in order.
    pub closed spec fn fetched_texts(self) -> Seq<Option<Seq<char>>> {
        self.fetched@
    }

    /// The texts handed to the backend's `set`, one per call, in order.
    pub closed spec fn handed_texts(self) -> Seq<Seq<char>> {
        self.handed@
    }

    /// A context around the given backend.
    pub fn new(backend: B) -> (r: ClipboardContext<B>)
        ensures
            r@ == seq![0u8],
            r.backend_of() == ContextBackend::<B>::User(backend),
            r.fetched_texts() == Seq::<Option<Seq<char>>>::empty(),
            r.handed_texts() == Seq::<Seq<char>>::empty(),
    {
        ClipboardContext {
            backend: ContextBackend::User(backend),
            last_value: empty_c_string(),
            fetched: Ghost(Seq::empty()),
            handed: Ghost(Seq::empty()),
        }
    }

    /// The last text the backend gave, with its NUL: what dear imgui reads.
    pub fn last_value(&self) -> (r: &[u8])
        ensures
            r@ == self@,
    {
        self.last_value.as_slice()
    }

    /// Keeps the text the backend gave as a C string. `Ok(false)` when there
    /// was none, leaving the kept text as it was; `Err` when the text holds a
    /// NUL, which has no C string form, leaving the kept text as it was too.
    pub fn keep_text(&mut self, text: Option<String>) -> (r: Result<bool, ClipboardTextError>)
        ensures
            final(self).backend_of() == old(self).backend_of(),
            final(self).fetched_texts() == old(self).fetched_texts(),
            final(self).handed_texts() == old(self).handed_texts(),
            r == Ok::<bool, ClipboardTextError>(false) <==> text is None,
            r == Err::<bool, ClipboardTextError>(ClipboardTextError::InteriorNul)
                <==> (text matches Some(t) && t@.contains('\0')),
            r == Ok::<bool, ClipboardTextError>(true)
                <==> (text matches Some(t) && !t@.contains('\0')),
            text is None ==> final(self)@ == old(self)@,
            r is Err ==> final(self)@ == old(self)@,
            text matches Some(t) ==> (!t@.contains('\0') ==> final(self)@ == encode_utf8(t@).push(0)),
    {
        match text {
            None => Ok(false),
            Some(t) => {
                proof {
                    lemma_encode_utf8_nul(t@);
                }
                match c_string_bytes(t.as_str()) {
                    Some(v) => {
                        self.last_value = v;
                        Ok(true)
                    },
                    None => Err(ClipboardTextError::InteriorNul),
                }
            },
        }
    }

    /// Fetches the backend's text and keeps it as a C string for dear imgui to
    /// read, as [`ClipboardContext::keep_text`] says: `Ok(false)` when the
    /// backend has none, as the dummy never has; `Err` when the text holds a NUL.
    /// What `get` returned is added to [`ClipboardContext::fetched_texts`], and
    /// the result and the kept text follow from it.
    pub fn get_text(&mut self) -> (r: Result<bool, ClipboardTextError>)
        ensures
            r == Ok::<bool, ClipboardTextError>(false) ==> final(self)@ == old(self)@,
            r is Err ==> final(self)@ == old(self)@,
            r == Ok::<bool, ClipboardTextError>(true) ==> {
                &&& final(self)@.len() > 0
                &&& final(self)@.last() == 0
                &&& nul_free(final(self)@.drop_last())
                &&& valid_utf8(final(self)@.drop_last())
            },
            final(self).backend_of() is Dummy <==> old(self).backend_of() is Dummy,
            old(self).backend_of() is Dummy ==> {
                &&& r == Ok::<bool, ClipboardTextError>(false)
                &&& final(self).backend_of() == old(self).backend_of()
                &&& final(self).fetched_texts().last() is None
            },
            final(self).fetched_texts().len() == old(self).fetched_texts().len() + 1,
            final(self).fetched_texts().drop_last() == old(self).fetched_texts(),
            final(self).fetched_texts().last() is None ==> r == Ok::<bool, ClipboardTextError>(false),
            final(self).fetched_texts().last() matches Some(t) ==> {
                &&& !t.contains('\0') ==> r == Ok::<bool, ClipboardTextError>(true)
                &&& !t.contains('\0') ==> final(self)@ == encode_utf8(t).push(0)
                &&& t.contains('\0') ==> r == Err::<bool, ClipboardTextError>(ClipboardTextError::InteriorNul)
            },
            final(self).handed_texts() == old(self).handed_texts(),
    {
        let text = match &mut self.backend {
            ContextBackend::Dummy(dummy) => dummy.get(),
            ContextBackend::User(backend) => backend.get(),
        };
        self.fetched = Ghost(
            self.fetched@.push(
                match &text {
                    Some(t) => Some(t@),
                    None => None,
                },
            ),
        );
        let r = self.keep_text(text);
        proof {
            if r == Ok::<bool, ClipboardTextError>(true) {
                let t = text.unwrap();
                assert(self@.drop_last() =~= encode_utf8(t@));
                encode_utf8_valid_utf8(t@);
                lemma_encode_utf8_nul(t@);
            }
        }
        r
    }

    /// Hands the C string dear imgui gives to the backend, when it is UTF-8.
    /// Returns whether it was handed over: `false` when it is not UTF-8. The text
    /// handed to `set` is added to [`ClipboardContext::handed_texts`].
    pub fn set_text(&mut self, raw: &[u8]) -> (r: bool)
        requires
            holds_c_str(raw@),
        ensures
            r == (c_str_text(raw@) is Some),
            final(self)@ == old(self)@,
            final(self).backend_of() is Dummy <==> old(self).backend_of() is Dummy,
            old(self).backend_of() is Dummy ==> final(self).backend_of() == old(self).backend_of(),
            c_str_text(raw@) matches Some(t) ==> final(self).handed_texts() == old(self).handed_texts().push(t),
            c_str_text(raw@) is None ==> final(self).handed_texts() == old(self).handed_texts(),
            final(self).fetched_texts() == old(self).fetched_texts(),
    {
        if let Some(s) = c_str_to_str(raw) {
            match &mut self.backend {
                ContextBackend::Dummy(dummy) => {
                    dummy.set(s);
                    self.handed = Ghost(self.handed@.push(s@));
                },
                ContextBackend::User(backend) => {
                    backend.set(s);
                    self.handed = Ghost(self.handed@.push(s@));
                },
            }
            true
        } else {
            false
        }
    }
}

/// The text the clipboard backend gave cannot be kept as a C string.
#[derive(Clone, Copy, Debug, PartialEq, Eq, Structural)]
pub enum ClipboardTextError {
    /// The text holds a NUL.
    InteriorNul,
}

} // verus!
