//! What the web endpoints decide about existing pastas: editing, reading,
//! following a URL pasta, QR targets, removal, the status page and logins.
use vstd::prelude::*;

use crate::i18n::{localized_text, I18n};
use crate::pasta::{find_by_key, is_key_encoder, key_position, lemma_key_position, Pasta};
use crate::text::{push_str, str_eq};

verus! {

/// What an edit page finds under a key.
#[derive(Clone, Copy, Debug, PartialEq, Eq, Structural)]
pub enum EditLookup {
    /// The pasta at this position may be edited.
    Editable(usize),
    /// A pasta is known by the key but may not be edited: go back home.
    Locked,
    /// No pasta is known by the key.
    Missing,
}

/// What an edit page does for `key`.
pub fn lookup_for_edit<F: Fn(u64) -> String>(pastas: &[Pasta], key: &str, encode: &F) -> (r:
    EditLookup)
    requires
        is_key_encoder(*encode),
    ensures
        match key_position(pastas@, key@, *encode) {
            None => r == EditLookup::Missing,
            Some(i) => if pastas@[i].editable {
                r matches EditLookup::Editable(k) && k == i
            } else {
                r == EditLookup::Locked
            },
        },
{
    match find_by_key(pastas, key, encode) {
        Some(i) => {
            if pastas[i].editable {
                EditLookup::Editable(i)
            } else {
                EditLookup::Locked
            }
        },
        None => EditLookup::Missing,
    }
}

/// Replaces the content of the pasta known by `key` where it is editable,
/// and gives its position; changes nothing otherwise.
pub fn apply_edit<F: Fn(u64) -> String>(
    pastas: &mut Vec<Pasta>,
    key: &str,
    new_content: String,
    encode: &F,
) -> (r: Option<usize>)
    requires
        is_key_encoder(*encode),
    ensures
        match key_position(old(pastas)@, key@, *encode) {
            Some(i) => if old(pastas)@[i].editable {
                r is Some && r->Some_0 == i && final(pastas)@ == old(pastas)@.update(
                    i,
                    (Pasta { content: new_content, ..old(pastas)@[i] }),
                )
            } else {
                r is None && final(pastas)@ == old(pastas)@
            },
            None => r is None && final(pastas)@ == old(pastas)@,
        },
{
    match find_by_key(pastas.as_slice(), key, encode) {
        Some(i) => {
            if pastas[i].editable {
                pastas[i].content = new_content;
                Some(i)
            } else {
                None
            }
        },
        None => None,
    }
}

/// Counts a read of the pasta known by `key` and gives its position;
/// changes nothing where no pasta is known by it.
pub fn register_view<F: Fn(u64) -> String>(pastas: &mut Vec<Pasta>, key: &str, encode: &F) -> (r:
    Option<usize>)
    requires
        is_key_encoder(*encode),
        key_position(old(pastas)@, key@, *encode) matches Some(i) ==> old(pastas)@[i].read_count
            < u64::MAX,
    ensures
        r matches Some(i) ==> i < old(pastas)@.len(),
        match key_position(old(pastas)@, key@, *encode) {
            Some(i) => r is Some && r->Some_0 == i && final(pastas)@ == old(pastas)@.update(
                i,
                (Pasta { read_count: (old(pastas)@[i].read_count + 1) as u64, ..old(pastas)@[i] }),
            ),
            None => r is None && final(pastas)@ == old(pastas)@,
        },
{
    match find_by_key(pastas.as_slice(), key, encode) {
        Some(i) => {
            pastas[i].read_count = pastas[i].read_count + 1;
            Some(i)
        },
        None => None,
    }
}

/// Reads the pasta known by `key` as raw text: counts the read, records it at
/// `now` and gives the content; gives the "pasta not found" text where no
/// pasta is known by the key.
pub fn read_raw<F: Fn(u64) -> String>(
    pastas: &mut Vec<Pasta>,
    key: &str,
    now: i64,
    i18n: I18n,
    encode: &F,
) -> (r: String)
    requires
        is_key_encoder(*encode),
        key_position(old(pastas)@, key@, *encode) matches Some(i) ==> old(pastas)@[i].read_count
            < u64::MAX,
    ensures
        match key_position(old(pastas)@, key@, *encode) {
            Some(i) => r@ == old(pastas)@[i].content@ && final(pastas)@ == old(pastas)@.update(
                i,
                (Pasta {
                    read_count: (old(pastas)@[i].read_count + 1) as u64,
                    last_read: now,
                    ..old(pastas)@[i]
                }),
            ),
            None => r@ == localized_text(i18n.language, "pasta_not_found"@) && final(pastas)@
                == old(pastas)@,
        },
{
    let ghost before = pastas@;
    proof {
        lemma_key_position(before, key@, *encode);
    }
    match register_view(pastas, key, encode) {
        Some(i) => {

            let ghost mid = pastas@;
            assert(mid == before.update(
                i as int,
                (Pasta { read_count: (before[i as int].read_count + 1) as u64, ..before[i as int] }),
            ));
            assert(pastas@.len() == before.len());
            pastas[i].last_read = now;
            assert(pastas@ == mid.update(i as int, (Pasta { last_read: now, ..mid[i as int] })));
            assert(pastas@ =~= before.update(
                i as int,
                (Pasta {
                    read_count: (before[i as int].read_count + 1) as u64,
                    last_read: now,
                    ..before[i as int]
                }),
            ));
            pastas[i].content.clone()
        },
        None => {
            let mut r = String::new();
            push_str(&mut r, i18n.text("pasta_not_found"));
            r
        },
    }
}

impl Pasta {
    /// Records that the pasta was read at `now`.
    pub fn mark_read_at(&mut self, now: i64)
        ensures
            *final(self) == (Pasta { last_read: now, ..*old(self) }),
    {
        self.last_read = now;
    }

    /// Where a URL pasta redirects to (its content); none for other pastas.
    pub fn redirect_location(&self) -> (r: Option<String>)
        ensures
            self.pasta_type@ == "url"@ ==> r is Some && r->Some_0@ == self.content@,
            self.pasta_type@ != "url"@ ==> r is None,
    {
        if str_eq(self.pasta_type.as_str(), "url") {
            Some(self.content.clone())
        } else {
            None
        }
    }
}

impl Pasta {
    /// Follows a URL pasta: records the read at `now` and gives where to
    /// redirect; a pasta of another type is left as it is and gives none.
    pub fn follow_redirect(&mut self, now: i64) -> (r: Option<String>)
        ensures
            old(self).pasta_type@ == "url"@ ==> r is Some && r->Some_0@ == old(self).content@
                && *final(self) == (Pasta { last_read: now, ..*old(self) }),
            old(self).pasta_type@ != "url"@ ==> r is None && *final(self) == *old(self),
    {
        let target = self.redirect_location();
        if target.is_some() {
            self.mark_read_at(now);
        }
        target
    }
}

/// Where a page that may not be used now sends the visitor: home (the public
/// path and `/`) where `refused` (read-only mode, or a listing that is off),
/// else nowhere.
pub fn redirect_home_if(refused: bool, public_path: &str) -> (r: Option<String>)
    ensures
        refused ==> r is Some && r->Some_0@ == public_path@ + "/"@,
        !refused ==> r is None,
{
    if refused {
        let mut location = String::new();
        push_str(&mut location, public_path);
        push_str(&mut location, "/");
        Some(location)
    } else {
        None
    }
}

/// The page of the pasta known by `key`.
pub fn pasta_location(public_path: &str, key: &str) -> (r: String)
    ensures
        r@ == public_path@ + "/pasta/"@ + key@,
{
    let mut location = String::new();
    push_str(&mut location, public_path);
    push_str(&mut location, "/pasta/");
    push_str(&mut location, key);
    location
}

/// The list of pastas, where a removal goes back to.
pub fn list_location(public_path: &str) -> (r: String)
    ensures
        r@ == public_path@ + "/pastalist"@,
{
    let mut location = String::new();
    push_str(&mut location, public_path);
    push_str(&mut location, "/pastalist");
    location
}

/// The address a QR code leads to for the pasta known by `key`: the
/// redirect for a URL pasta, else the pasta's page.
pub fn qr_target(public_path: &str, key: &str, pasta_type: &str) -> (r: String)
    ensures
        r@ == public_path@ + (if pasta_type@ == "url"@ {
            "/url/"@
        } else {
            "/pasta/"@
        }) + key@,
{
    let mut r = String::new();
    push_str(&mut r, public_path);
    if str_eq(pasta_type, "url") {
        push_str(&mut r, "/url/");
    } else {
        push_str(&mut r, "/pasta/");
    }
    push_str(&mut r, key);
    r
}

/// Takes the pasta known by `key` out of the collection and gives it back;
/// changes nothing where no pasta is known by it.
pub fn remove_by_key<F: Fn(u64) -> String>(pastas: &mut Vec<Pasta>, key: &str, encode: &F) -> (r:
    Option<Pasta>)
    requires
        is_key_encoder(*encode),
    ensures
        match key_position(old(pastas)@, key@, *encode) {
            Some(i) => r == Some(old(pastas)@[i]) && final(pastas)@ == old(pastas)@.remove(i),
            None => r is None && final(pastas)@ == old(pastas)@,
        },
{
    match find_by_key(pastas.as_slice(), key, encode) {
        Some(i) => Some(pastas.remove(i)),
        None => None,
    }
}

/// The status of the server and the key of its message: a warning where no
/// public path is configured, else OK and no message.
pub fn server_status(public_path: &str) -> (r: (&'static str, &'static str))
    ensures
        public_path@.len() == 0 ==> r.0@ == "WARNING"@ && r.1@ == "warning_no_public_url"@,
        public_path@.len() != 0 ==> r.0@ == "OK"@ && r.1@ == ""@,
{
    if public_path.is_empty() {
        ("WARNING", "warning_no_public_url")
    } else {
        ("OK", "")
    }
}

/// Whether a login is accepted: the user name must be the configured one, and
/// where a password is configured the login must carry that password.
pub fn credentials_accepted(
    expected_user: &str,
    expected_password: Option<&str>,
    user: &str,
    password: Option<&str>,
) -> (r: bool)
    ensures
        r == (user@ == expected_user@ && match expected_password {
            None => true,
            Some(p) => match password {
                None => false,
                Some(q) => q@ == p@,
            },
        }),
{
    if str_eq(user, expected_user) {
        match expected_password {
            Some(expected) => match password {
                None => false,
                Some(given) => str_eq(given, expected),
            },
            None => true,
        }
    } else {
        false
    }
}

} // verus!
