//! The settings that the store needs, checked once at start.
//!
//! The settings are looked up elsewhere; what was found is handed in, and
//! an absent or malformed setting is a [`StoreError::Config`].

use vstd::prelude::*;
use vstd::string::*;
use crate::models::errors::StoreError;

verus! {

/// Whether `text` can stand in an HTTP header: printable ASCII only.
pub open spec fn is_header_text(text: Seq<char>) -> bool {
    forall|i: int| 0 <= i < text.len() ==> ' ' <= #[trigger] text[i] <= '~'
}

/// Whether a setting was found and is not empty.
pub open spec fn is_present(found: Option<String>) -> bool {
    found matches Some(text) && text@.len() > 0
}

/// Whether `text` can stand in an HTTP header.
pub fn is_header_safe(text: &str) -> (safe: bool)
    ensures
        safe == is_header_text(text@),
{
    if !text.is_ascii() {
        assert(!is_header_text(text@)) by {
            if is_header_text(text@) {
                assert forall|i: int| 0 <= i < text@.len() implies '\0' <= #[trigger] text@[i]
                    <= '\u{7f}' by {
                    assert(' ' <= text@[i] <= '~');
                }
            }
        }
        return false;
    }
    let bytes = text.as_bytes();
    proof {
        is_ascii_spec_bytes(text);
    }
    let mut i: usize = 0;
    while i < bytes.len()
        invariant
            i <= bytes.len(),
            is_ascii(text),
            bytes@ == text.spec_bytes(),
            bytes@ =~= Seq::new(text@.len(), |j: int| text@.index(j) as u8),
            forall|j: int| 0 <= j < i ==> ' ' <= #[trigger] text@[j] <= '~',
        decreases bytes.len() - i,
    {
        let byte = bytes[i];
        assert(byte == text@[i as int] as u8);
        assert('\0' <= text@[i as int] <= '\u{7f}');
        if byte < 32 || byte > 126 {
            assert(!(' ' <= text@[i as int] <= '~'));
            return false;
        }
        i = i + 1;
    }
    true
}

/// The address of the remote store, as found in the settings.
///
/// Fails with [`StoreError::Config`] exactly when the setting is absent or
/// empty.
pub fn database_url(found: Option<String>) -> (url: Result<String, StoreError>)
    ensures
        match url {
            Ok(text) => found == Some(text) && text@.len() > 0,
            Err(error) => error == StoreError::Config && !is_present(found),
        },
{
    match found {
        Some(text) => {
            if text.as_str().unicode_len() > 0 {
                Ok(text)
            } else {
                Err(StoreError::Config)
            }
        },
        None => Err(StoreError::Config),
    }
}

/// The key that opens the remote store, as found in the settings.
///
/// Fails with [`StoreError::Config`] exactly when the setting is absent or
/// empty, or holds a character that cannot stand in an HTTP header.
pub fn database_secret(found: Option<String>) -> (secret: Result<String, StoreError>)
    ensures
        match secret {
            Ok(text) => found == Some(text) && text@.len() > 0 && is_header_text(text@),
            Err(error) => error == StoreError::Config && !(is_present(found) && is_header_text(
                found->0@,
            )),
        },
{
    match found {
        Some(text) => {
            if text.as_str().unicode_len() > 0 && is_header_safe(text.as_str()) {
                Ok(text)
            } else {
                Err(StoreError::Config)
            }
        },
        None => Err(StoreError::Config),
    }
}

/// The settings of the store, each one present and well formed.
#[derive(Debug, PartialEq, Eq)]
pub struct StoreConfig {
    /// The base address of the remote store.
    pub url: String,
    /// The key sent with every request.
    pub secret: String,
    /// The name of the table that holds the entries.
    pub table: String,
}

impl StoreConfig {
    /// Whether the settings are fit for use: none is empty, and the key can
    /// stand in an HTTP header.
    pub open spec fn is_valid(self) -> bool {
        &&& self.url@.len() > 0
        &&& self.secret@.len() > 0
        &&& is_header_text(self.secret@)
        &&& self.table@.len() > 0
    }

    /// Whether these three lookups make settings that are fit for use.
    pub open spec fn can_load(
        url: Option<String>,
        secret: Option<String>,
        table: Option<String>,
    ) -> bool {
        &&& is_present(url)
        &&& is_present(secret)
        &&& is_header_text(secret->0@)
        &&& is_present(table)
    }

    /// Checks what the lookups of the three settings found.
    ///
    /// Fails with [`StoreError::Config`] exactly when one of them is absent
    /// or empty, or the key cannot stand in an HTTP header.
    pub fn load(url: Option<String>, secret: Option<String>, table: Option<String>) -> (config:
        Result<StoreConfig, StoreError>)
        ensures
            match config {
                Ok(loaded) => Self::can_load(url, secret, table) && loaded.is_valid()
                    && url == Some(loaded.url) && secret == Some(loaded.secret) && table == Some(
                    loaded.table,
                ),
                Err(error) => error == StoreError::Config && !Self::can_load(url, secret, table),
            },
    {
        match (database_url(url), database_secret(secret), database_url(table)) {
            (Ok(url), Ok(secret), Ok(table)) => Ok(StoreConfig { url, secret, table }),
            _ => Err(StoreError::Config),
        }
    }
}

} // verus!
