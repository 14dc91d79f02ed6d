//! Creating a pasta from the fields of an upload form: the new pasta's
//! defaults, what each field does to it, which custom key it may take, and
//! adding it to the collection.
use vstd::prelude::*;

use rand::Rng;

use crate::pasta::{
    encode_id, encoded_key, is_key_encoder, key_free, key_is_available, key_position,
    normalize_custom_key, path_file_name, public_key_of, has_key, spaces_to_underscores,
    valid_custom_key, Pasta, PastaFile,
};
use crate::laws::{keys_unique, lemma_adding_free_key_keeps_keys_unique};
use crate::text::{push_str, str_eq, trim};

verus! {

/// A pasta being built from an upload form, with the raw text of the
/// custom-key and content fields as they arrive.
pub struct PastaDraft {
    pub pasta: Pasta,
    pub custom_key_input: String,
    pub content_input: String,
}

/// The expiry time chosen in the form, for a pasta created at `now`:
/// a minute, ten minutes, an hour, a day, three days or a week later; never
/// (zero) unless eternal pastas are off, when it is a week; a week for
/// anything else.
pub open spec fn expiration_after(choice: Seq<char>, now: int, no_eternal_pasta: bool) -> int {
    if choice == "1min"@ {
        now + 60
    } else if choice == "10min"@ {
        now + 60 * 10
    } else if choice == "1hour"@ {
        now + 60 * 60
    } else if choice == "24hour"@ {
        now + 60 * 60 * 24
    } else if choice == "3days"@ {
        now + 60 * 60 * 24 * 3
    } else if choice == "1week"@ {
        now + 60 * 60 * 24 * 7
    } else if choice == "never"@ {
        if no_eternal_pasta {
            now + 60 * 60 * 24 * 7
        } else {
            0
        }
    } else {
        now + 60 * 60 * 24 * 7
    }
}

/// The number of reads after which a pasta is burnt, as chosen in the form
/// (one read becomes two, for the redirect to the new pasta; zero is no limit).
pub open spec fn burn_after_choice(choice: Seq<char>) -> u64 {
    if choice == "1"@ {
        2
    } else if choice == "10"@ {
        10
    } else if choice == "100"@ {
        100
    } else if choice == "1000"@ {
        1000
    } else if choice == "10000"@ {
        10000
    } else {
        0
    }
}

/// The expiry time for the form's choice.
pub fn expiration_for(choice: &str, now: i64, no_eternal_pasta: bool) -> (r: i64)
    requires
        now <= i64::MAX - 60 * 60 * 24 * 7,
    ensures
        r == expiration_after(choice@, now as int, no_eternal_pasta),
{
    if str_eq(choice, "1min") {
        now + 60
    } else if str_eq(choice, "10min") {
        now + 60 * 10
    } else if str_eq(choice, "1hour") {
        now + 60 * 60
    } else if str_eq(choice, "24hour") {
        now + 60 * 60 * 24
    } else if str_eq(choice, "3days") {
        now + 60 * 60 * 24 * 3
    } else if str_eq(choice, "1week") {
        now + 60 * 60 * 24 * 7
    } else if str_eq(choice, "never") {
        if no_eternal_pasta {
            now + 60 * 60 * 24 * 7
        } else {
            0
        }
    } else {
        now + 60 * 60 * 24 * 7
    }
}

/// The burn-after-reads count for the form's choice.
pub fn burn_after_reads_for(choice: &str) -> (r: u64)
    ensures
        r == burn_after_choice(choice@),
{
    if str_eq(choice, "1") {
        2
    } else if str_eq(choice, "10") {
        10
    } else if str_eq(choice, "100") {
        100
    } else if str_eq(choice, "1000") {
        1000
    } else if str_eq(choice, "10000") {
        10000
    } else {
        0
    }
}

impl PastaDraft {
    /// A fresh pasta with id `id`, created and last read at `now`: no custom
    /// key, the content "No Text Content", no file, no extension, public, not
    /// editable, never expiring, unread, no burn limit and no type yet.
    pub fn new(id: u64, now: i64) -> (r: Self)
        requires
            id < 65536,
        ensures
            r.pasta.id == id,
            r.pasta.custom_key is None,
            r.pasta.content@ == "No Text Content"@,
            r.pasta.file is None,
            r.pasta.extension@ == ""@,
            !r.pasta.private,
            !r.pasta.editable,
            r.pasta.created == now,
            r.pasta.expiration == 0,
            r.pasta.last_read == now,
            r.pasta.read_count == 0,
            r.pasta.burn_after_reads == 0,
            r.pasta.pasta_type@ == ""@,
            r.custom_key_input@ == ""@,
            r.content_input@ == ""@,
    {
        PastaDraft {
            pasta: Pasta {
                id,
                custom_key: None,
                content: "No Text Content".to_owned(),
                file: None,
                extension: "".to_owned(),
                private: false,
                editable: false,
                created: now,
                expiration: 0,
                last_read: now,
                read_count: 0,
                burn_after_reads: 0,
                pasta_type: "".to_owned(),
            },
            custom_key_input: "".to_owned(),
            content_input: "".to_owned(),
        }
    }

    /// The form asks for an editable pasta.
    pub fn mark_editable(&mut self)
        ensures
            final(self).pasta == (Pasta { editable: true, ..old(self).pasta }),
            final(self).custom_key_input == old(self).custom_key_input,
            final(self).content_input == old(self).content_input,
    {
        self.pasta.editable = true;
    }

    /// The form asks for a private pasta.
    pub fn mark_private(&mut self)
        ensures
            final(self).pasta == (Pasta { private: true, ..old(self).pasta }),
            final(self).custom_key_input == old(self).custom_key_input,
            final(self).content_input == old(self).content_input,
    {
        self.pasta.private = true;
    }

    /// A piece of the custom-key field arrives.
    pub fn push_custom_key_chunk(&mut self, chunk: &str)
        ensures
            final(self).pasta == old(self).pasta,
            final(self).custom_key_input@ == old(self).custom_key_input@ + chunk@,
            final(self).content_input == old(self).content_input,
    {
        push_str(&mut self.custom_key_input, chunk);
    }

    /// A piece of the expiration field arrives; it decides the expiry time.
    pub fn apply_expiration_chunk(&mut self, chunk: &str, now: i64, no_eternal_pasta: bool)
        requires
            now <= i64::MAX - 60 * 60 * 24 * 7,
        ensures
            final(self).pasta == (Pasta {
                expiration: expiration_after(chunk@, now as int, no_eternal_pasta) as i64,
                ..old(self).pasta
            }),
            final(self).custom_key_input == old(self).custom_key_input,
            final(self).content_input == old(self).content_input,
    {
        self.pasta.expiration = expiration_for(chunk, now, no_eternal_pasta);
    }

    /// A piece of the burn-after field arrives; it decides the burn limit.
    pub fn apply_burn_after_chunk(&mut self, chunk: &str)
        ensures
            final(self).pasta == (Pasta {
                burn_after_reads: burn_after_choice(chunk@),
                ..old(self).pasta
            }),
            final(self).custom_key_input == old(self).custom_key_input,
            final(self).content_input == old(self).content_input,
    {
        self.pasta.burn_after_reads = burn_after_reads_for(chunk);
    }

    /// A piece of the content field arrives.
    pub fn push_content_chunk(&mut self, chunk: &str)
        ensures
            final(self).pasta == old(self).pasta,
            final(self).custom_key_input == old(self).custom_key_input,
            final(self).content_input@ == old(self).content_input@ + chunk@,
    {
        push_str(&mut self.content_input, chunk);
    }

    /// The content field is complete. Non-empty content becomes the pasta's
    /// content, and makes it a URL pasta where the content is a URL (as
    /// `is_url` says), else a text pasta; empty content changes nothing.
    pub fn finish_content(&mut self, is_url: bool)
        ensures
            old(self).content_input@.len() == 0 ==> final(self).pasta == old(self).pasta,
            old(self).content_input@.len() != 0 ==> {
                &&& final(self).pasta.content@ == old(self).content_input@
                &&& final(self).pasta.pasta_type@ == if is_url {
                    "url"@
                } else {
                    "text"@
                }
                &&& final(self).pasta == (Pasta {
                    content: final(self).pasta.content,
                    pasta_type: final(self).pasta.pasta_type,
                    ..old(self).pasta
                })
            },
            final(self).custom_key_input == old(self).custom_key_input,
            final(self).content_input == old(self).content_input,
    {
        if !self.content_input.as_str().is_empty() {
            self.pasta.content = self.content_input.clone();
            self.pasta.pasta_type = if is_url {
                "url".to_owned()
            } else {
                "text".to_owned()
            };
        }
    }

    /// A piece of the syntax-highlight field arrives; it sets the extension.
    pub fn set_extension(&mut self, chunk: &str)
        ensures
            final(self).pasta.extension@ == chunk@,
            final(self).pasta == (Pasta { extension: final(self).pasta.extension, ..old(self).pasta }),
            final(self).custom_key_input == old(self).custom_key_input,
            final(self).content_input == old(self).content_input,
    {
        self.pasta.extension = chunk.to_owned();
    }

    /// A file has been stored for the pasta: it is attached, and the pasta is a text pasta.
    pub fn attach_file(&mut self, file: PastaFile)
        ensures
            final(self).pasta.file == Some(file),
            final(self).pasta.pasta_type@ == "text"@,
            final(self).pasta == (Pasta {
                file: final(self).pasta.file,
                pasta_type: final(self).pasta.pasta_type,
                ..old(self).pasta
            }),
            final(self).custom_key_input == old(self).custom_key_input,
            final(self).content_input == old(self).content_input,
    {
        self.pasta.file = Some(file);
        self.pasta.pasta_type = "text".to_owned();
    }
}

/// The fields of the upload form.
#[derive(Clone, Copy, Debug, PartialEq, Eq, Structural)]
pub enum FormField {
    Editable,
    Private,
    CustomKey,
    Expiration,
    BurnAfter,
    Content,
    SyntaxHighlight,
    File,
    /// A field the form does not have; it is ignored.
    Unknown,
}

/// The form field a multipart part belongs to, by its name.
pub open spec fn form_field_named(name: Seq<char>) -> FormField {
    if name == "editable"@ {
        FormField::Editable
    } else if name == "private"@ {
        FormField::Private
    } else if name == "custom_key"@ {
        FormField::CustomKey
    } else if name == "expiration"@ {
        FormField::Expiration
    } else if name == "burn_after"@ {
        FormField::BurnAfter
    } else if name == "content"@ {
        FormField::Content
    } else if name == "syntax-highlight"@ {
        FormField::SyntaxHighlight
    } else if name == "file"@ {
        FormField::File
    } else {
        FormField::Unknown
    }
}

/// Which form field a multipart part named `name` fills.
pub fn form_field(name: &str) -> (r: FormField)
    ensures
        r == form_field_named(name@),
{
    if str_eq(name, "editable") {
        FormField::Editable
    } else if str_eq(name, "private") {
        FormField::Private
    } else if str_eq(name, "custom_key") {
        FormField::CustomKey
    } else if str_eq(name, "expiration") {
        FormField::Expiration
    } else if str_eq(name, "burn_after") {
        FormField::BurnAfter
    } else if str_eq(name, "content") {
        FormField::Content
    } else if str_eq(name, "syntax-highlight") {
        FormField::SyntaxHighlight
    } else if str_eq(name, "file") {
        FormField::File
    } else {
        FormField::Unknown
    }
}

/// The attachment to store for an uploaded file named `filename`: none where
/// uploads are off, no name or an empty name was sent, or the name has no
/// final component; else the sanitized attachment.
pub fn upload_target(no_file_upload: bool, filename: Option<&str>) -> (r: Option<PastaFile>)
    ensures
        no_file_upload ==> r is None,
        !no_file_upload && filename is None ==> r is None,
        !no_file_upload ==> (filename matches Some(f) ==> (f@.len() == 0 ==> r is None)),
        !no_file_upload ==> (filename matches Some(f) ==> (f@.len() != 0 ==> match path_file_name(
            f@,
        ) {
            None => r is None,
            Some(name) => r is Some && r->Some_0.name@ == spaces_to_underscores(name)
                && r->Some_0.size == 0,
        })),
{
    if no_file_upload {
        return None;
    }
    match filename {
        None => None,
        Some(f) => {
            if f.is_empty() {
                None
            } else {
                match PastaFile::from_unsanitized(f) {
                    Ok(file) => Some(file),
                    Err(_) => None,
                }
            }
        },
    }
}

/// Whether the files staged under the generated key must move to the
/// custom key's directory: where a custom key other than the generated one
/// was given and a file is attached.
pub fn staged_files_move(custom_key: Option<&str>, generated: &str, has_file: bool) -> (r: bool)
    ensures
        r == (custom_key matches Some(k) && k@ != generated@ && has_file),
{
    match custom_key {
        Some(k) => !str_eq(k, generated) && has_file,
        None => false,
    }
}

/// Why a form's custom key was refused.
#[derive(Clone, Copy, Debug, PartialEq, Eq, Structural)]
pub enum KeyRejection {
    /// Not a valid key: answered 422 Unprocessable Entity.
    InvalidKey,
    /// A pasta is already known by this key: answered 409 Conflict.
    DuplicateKey,
}

impl KeyRejection {
    /// The key of the message shown with the form.
    pub fn message_key(self) -> (r: &'static str)
        ensures
            r@ == match self {
                KeyRejection::InvalidKey => "invalid_key"@,
                KeyRejection::DuplicateKey => "duplicate_key"@,
            },
    {
        match self {
            KeyRejection::InvalidKey => "invalid_key",
            KeyRejection::DuplicateKey => "duplicate_key",
        }
    }

    /// The HTTP status of the answer.
    pub fn status_code(self) -> (r: u16)
        ensures
            r == match self {
                KeyRejection::InvalidKey => 422u16,
                KeyRejection::DuplicateKey => 409u16,
            },
    {
        match self {
            KeyRejection::InvalidKey => 422,
            KeyRejection::DuplicateKey => 409,
        }
    }
}

/// The custom key a new pasta gets from the form's input: none where the
/// input is blank; refused where the trimmed input is not a valid key or a
/// pasta is already known by it; else the trimmed input.
pub fn check_custom_key<F: Fn(u64) -> String>(input: &str, pastas: &[Pasta], encode: &F) -> (r:
    Result<Option<String>, KeyRejection>)
    requires
        is_key_encoder(*encode),
    ensures
        trim(input@).len() == 0 ==> r == Ok::<Option<String>, KeyRejection>(None),
        trim(input@).len() != 0 && !valid_custom_key(trim(input@)) ==> r == Err::<
            Option<String>,
            KeyRejection,
        >(KeyRejection::InvalidKey),
        trim(input@).len() != 0 && valid_custom_key(trim(input@)) && !key_free(
            pastas@,
            trim(input@),
            *encode,
        ) ==> r == Err::<Option<String>, KeyRejection>(KeyRejection::DuplicateKey),
        trim(input@).len() != 0 && valid_custom_key(trim(input@)) && key_free(
            pastas@,
            trim(input@),
            *encode,
        ) ==> r is Ok && r->Ok_0 is Some && r->Ok_0->Some_0@ == trim(input@),
{
    match normalize_custom_key(input) {
        Err(_) => Err(KeyRejection::InvalidKey),
        Ok(None) => Ok(None),
        Ok(Some(key)) => {
            if key_is_available(pastas, key.as_str(), encode) {
                Ok(Some(key))
            } else {
                Err(KeyRejection::DuplicateKey)
            }
        },
    }
}

/// Whether a new pasta may take `id`: no pasta has that id, and none is known
/// by the key generated from it.
pub fn id_is_free<F: Fn(u64) -> String>(pastas: &[Pasta], id: u64, encode: &F) -> (r: bool)
    requires
        is_key_encoder(*encode),
    ensures
        r == ((forall|i: int| 0 <= i < pastas@.len() ==> (#[trigger] pastas@[i]).id != id)
            && key_free(pastas@, encoded_key(*encode, id), *encode)),
{
    let n = pastas.len();
    for i in 0..n
        invariant
            n == pastas@.len(),
            forall|k: int| 0 <= k < i ==> (#[trigger] pastas@[k]).id != id,
    {
        if pastas[i].id == id {
            return false;
        }
    }
    let key = encode_id(encode, id);
    key_is_available(pastas, key.as_str(), encode)
}

/// What creating a pasta does once its form has been read.
pub enum CreatePlan {
    /// The custom key is refused: the form is shown again with this reason.
    Refuse(KeyRejection),
    /// The pasta is stored under `custom_key` (none: its generated key); where
    /// `move_files`, its staged files first move to the custom key's directory.
    Store { custom_key: Option<String>, move_files: bool },
}

/// Calls `rand::thread_rng().gen::<u16>()` and widens the value.
/// Claims only that it is below 65536: which value comes out is chance.
#[verifier::external_body]
fn random_u16() -> (r: u64)
    ensures
        r < 65536,
{
    rand::thread_rng().gen::<u16>() as u64
}

/// A random candidate id for a new pasta: a sixteen-bit number.
pub fn draw_id() -> (r: u64)
    ensures
        r < 65536,
{
    random_u16()
}

/// Decides the end of a create from the draft read from the form, the key
/// generated for its id and the collection: refuse an invalid or taken custom
/// key, else store the pasta under it (moving staged files where the custom
/// key differs from the generated one and a file is attached).
pub fn plan_create<F: Fn(u64) -> String>(
    draft: &PastaDraft,
    generated: &str,
    pastas: &[Pasta],
    encode: &F,
) -> (r: CreatePlan)
    requires
        is_key_encoder(*encode),
    ensures
        ({
            let key = trim(draft.custom_key_input@);
            &&& key.len() == 0 ==> (r matches CreatePlan::Store { custom_key, move_files }
                && custom_key is None && !move_files)
            &&& key.len() != 0 && !valid_custom_key(key) ==> (r matches CreatePlan::Refuse(reason)
                && reason == KeyRejection::InvalidKey)
            &&& key.len() != 0 && valid_custom_key(key) && !key_free(pastas@, key, *encode)
                ==> (r matches CreatePlan::Refuse(reason) && reason == KeyRejection::DuplicateKey)
            &&& key.len() != 0 && valid_custom_key(key) && key_free(pastas@, key, *encode)
                ==> (r matches CreatePlan::Store { custom_key, move_files } && custom_key is Some
                && custom_key->Some_0@ == key && move_files == (key != generated@
                && draft.pasta.file is Some))
        }),
{
    match check_custom_key(draft.custom_key_input.as_str(), pastas, encode) {
        Err(reason) => CreatePlan::Refuse(reason),
        Ok(custom_key) => {
            let move_files = match &custom_key {
                Some(key) => staged_files_move(Some(key.as_str()), generated, draft.pasta.file.is_some()),
                None => false,
            };
            CreatePlan::Store { custom_key, move_files }
        },
    }
}

/// No two pastas have the same id.
pub open spec fn ids_unique(pastas: Seq<Pasta>) -> bool {
    forall|i: int, j: int|
        0 <= i < pastas.len() && 0 <= j < pastas.len() && i != j ==> (#[trigger] pastas[i]).id
            != (#[trigger] pastas[j]).id
}

/// A whole create keeps the collection sound: where ids and keys were unique,
/// the new pasta's id was a sixteen-bit number (as `draw_id` gives and
/// `PastaDraft::new` requires) and free (as `id_is_free` checks) and its custom key,
/// if any, valid and free (as `plan_create` checks), ids and keys stay unique
/// after `publish`, the new id is at most 65535, and the new pasta is the one
/// found by its key.
pub proof fn lemma_create_keeps_collection_sound<F: Fn(u64) -> String>(
    pastas: Seq<Pasta>,
    pasta: Pasta,
    custom_key: Option<String>,
    encode: F,
)
    requires
        keys_unique(pastas, encode),
        ids_unique(pastas),
        forall|i: int| 0 <= i < pastas.len() ==> (#[trigger] pastas[i]).id != pasta.id,
        key_free(pastas, encoded_key(encode, pasta.id), encode),
        custom_key matches Some(k) ==> valid_custom_key(k@) && key_free(pastas, k@, encode),
        pasta.id < 65536,
    ensures
        ({
            let added = (Pasta { custom_key: custom_key, ..pasta });
            let after = pastas.push(added);
            &&& after.last().id <= 65535
            &&& keys_unique(after, encode)
            &&& ids_unique(after)
            &&& key_position(after, public_key_of(added, encode), encode) == Some(pastas.len() as int)
        }),
{
    let added = (Pasta { custom_key: custom_key, ..pasta });
    let after = pastas.push(added);
    let key = public_key_of(added, encode);
    assert(key_free(pastas, key, encode));
    lemma_adding_free_key_keeps_keys_unique(pastas, added, encode);
    assert forall|i: int, j: int|
        0 <= i < after.len() && 0 <= j < after.len() && i != j implies (#[trigger] after[i]).id
        != (#[trigger] after[j]).id by {
        if i < pastas.len() && j < pastas.len() {
            assert(after[i] == pastas[i] && after[j] == pastas[j]);
        } else if i == pastas.len() {
            assert(after[j] == pastas[j]);
        } else {
            assert(after[i] == pastas[i]);
        }
    }
    assert(has_key(after[pastas.len() as int], key, encode));
    lemma_added_key_is_found(pastas, after, key, encode);
}

/// Adds the new pasta, with the custom key it was given, to the collection,
/// and gives the key it is known by. A pasta added under a key that no
/// other pasta had is the one found by that key afterwards.
pub fn publish<F: Fn(u64) -> String>(
    pastas: &mut Vec<Pasta>,
    pasta: Pasta,
    custom_key: Option<String>,
    encode: &F,
) -> (r: String)
    requires
        is_key_encoder(*encode),
    ensures
        final(pastas)@ == old(pastas)@.push((Pasta { custom_key: custom_key, ..pasta })),
        r@ == public_key_of((Pasta { custom_key: custom_key, ..pasta }), *encode),
        key_free(old(pastas)@, r@, *encode) ==> key_position(final(pastas)@, r@, *encode) == Some(
            old(pastas)@.len() as int,
        ),
{
    let mut pasta = pasta;
    pasta.custom_key = custom_key;
    pastas.push(pasta);
    let last = pastas.len() - 1;
    let key = pastas[last].public_key(encode);
    proof {
        if key_free(old(pastas)@, key@, *encode) {
            lemma_added_key_is_found(old(pastas)@, pastas@, key@, *encode);
        }
    }
    key
}

/// A pasta appended under a key that no earlier pasta had is the first one
/// known by that key.
pub proof fn lemma_added_key_is_found<F: Fn(u64) -> String>(
    before: Seq<Pasta>,
    after: Seq<Pasta>,
    key: Seq<char>,
    encode: F,
)
    requires
        after.len() == before.len() + 1,
        forall|i: int| 0 <= i < before.len() ==> after[i] == before[i],
        key_free(before, key, encode),
        has_key(after[before.len() as int], key, encode),
    ensures
        key_position(after, key, encode) == Some(before.len() as int),
{
    let n = before.len() as int;
    assert(forall|j: int| 0 <= j < n ==> !has_key(#[trigger] after[j], key, encode)) by {
        assert forall|j: int| 0 <= j < n implies !has_key(#[trigger] after[j], key, encode) by {
            assert(after[j] == before[j]);
            assert(!has_key(before[j], key, encode));
        }
    }
    assert(0 <= n < after.len() && has_key(after[n], key, encode));
    let c = choose|i: int|
        0 <= i < after.len() && has_key(#[trigger] after[i], key, encode) && forall|j: int|
            0 <= j < i ==> !has_key(#[trigger] after[j], key, encode);
    assert(c == n);
}

} // verus!
