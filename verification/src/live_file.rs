//! The description of one live file, as a plain value and in the form in
//! which it crosses the boundary to the storage engine.

use crate::c_string::NulTerminated;
use crate::error::MetadataError;
use crate::text::fits_c_string;
use crate::text::lemma_nul_byte_iff_nul_char;
use crate::text::lemma_text_of_encoding;
use crate::text::text_of;
use vstd::prelude::*;
use vstd::utf8::encode_utf8;

verus! {

/// The bytes of a key that may be absent.
pub open spec fn key_view(key: Option<Vec<u8>>) -> Option<Seq<u8>> {
    match key {
        Some(bytes) => Some(bytes@),
        None => None,
    }
}

/// One live file of a column family. The storage engine owns the meaning of
/// every field; nothing here checks one field against another.
#[derive(Clone, Debug, PartialEq, Eq)]
pub struct LiveFile {
    /// Name of the column family that the file belongs to.
    pub column_family_name: String,
    /// Name of the file.
    pub name: String,
    /// Directory that holds the file.
    pub directory: String,
    /// Size of the file in bytes.
    pub size: usize,
    /// Level at which the file resides.
    pub level: i32,
    /// Smallest user key in the file; `None` where the file has no lower bound.
    pub start_key: Option<Vec<u8>>,
    /// Largest user key in the file; `None` where the file has no upper bound.
    pub end_key: Option<Vec<u8>>,
    /// Smallest sequence number in the file.
    pub smallest_seqno: u64,
    /// Largest sequence number in the file.
    pub largest_seqno: u64,
    /// Number of entries in the file.
    pub num_entries: u64,
    /// Number of deletions among those entries.
    pub num_deletions: u64,
}

/// What a [`LiveFile`] holds.
pub struct LiveFileView {
    pub column_family_name: Seq<char>,
    pub name: Seq<char>,
    pub directory: Seq<char>,
    pub size: usize,
    pub level: i32,
    pub start_key: Option<Seq<u8>>,
    pub end_key: Option<Seq<u8>>,
    pub smallest_seqno: u64,
    pub largest_seqno: u64,
    pub num_entries: u64,
    pub num_deletions: u64,
}

impl View for LiveFile {
    type V = LiveFileView;

    open spec fn view(&self) -> LiveFileView {
        LiveFileView {
            column_family_name: self.column_family_name@,
            name: self.name@,
            directory: self.directory@,
            size: self.size,
            level: self.level,
            start_key: key_view(self.start_key),
            end_key: key_view(self.end_key),
            smallest_seqno: self.smallest_seqno,
            largest_seqno: self.largest_seqno,
            num_entries: self.num_entries,
            num_deletions: self.num_deletions,
        }
    }
}

impl DeepView for LiveFile {
    type V = LiveFileView;

    open spec fn deep_view(&self) -> LiveFileView {
        self@
    }
}

/// A key as it is handed across: an address that is null for an absent key,
/// and the bytes that lie behind it. Their number is the length that goes
/// with the address.
#[derive(Clone, Debug, PartialEq, Eq)]
pub struct RawKey {
    /// Whether the address is null.
    pub is_null: bool,
    /// The bytes behind the address; none behind a null address.
    pub bytes: Vec<u8>,
}

/// What a [`RawKey`] holds.
pub struct RawKeyView {
    pub is_null: bool,
    pub bytes: Seq<u8>,
}

impl View for RawKey {
    type V = RawKeyView;

    open spec fn view(&self) -> RawKeyView {
        RawKeyView { is_null: self.is_null, bytes: self.bytes@ }
    }
}

impl RawKeyView {
    /// How a key is handed over: an absent key as a null address with no
    /// bytes, a present one as an address that is not null, with its bytes,
    /// however few.
    pub open spec fn of(key: Option<Seq<u8>>) -> RawKeyView {
        match key {
            Some(bytes) => RawKeyView { is_null: false, bytes },
            None => RawKeyView { is_null: true, bytes: Seq::empty() },
        }
    }

    /// How a key is taken back: a null address is an absent key, whatever
    /// length came with it; any other address is a present key.
    pub open spec fn key(self) -> Option<Seq<u8>> {
        if self.is_null {
            None
        } else {
            Some(self.bytes)
        }
    }
}

impl RawKey {
    /// Puts a key into the form in which it is handed over.
    pub fn from_key(key: &Option<Vec<u8>>) -> (raw: RawKey)
        ensures
            raw@ == RawKeyView::of(key_view(*key)),
    {
        match key {
            Some(bytes) => {
                let copy = bytes.clone();
                assert(copy@ =~= bytes@);
                RawKey { is_null: false, bytes: copy }
            },
            None => RawKey { is_null: true, bytes: Vec::new() },
        }
    }

    /// The key that this form stands for.
    pub fn to_key(&self) -> (key: Option<Vec<u8>>)
        ensures
            key_view(key) == self@.key(),
    {
        if self.is_null {
            None
        } else {
            let copy = self.bytes.clone();
            assert(copy@ =~= self.bytes@);
            Some(copy)
        }
    }
}

/// A key that was handed over and taken back is the key that it was: an
/// absent key stays absent, and a present key stays present with the same
/// bytes, also where it has none.
pub proof fn lemma_key_round_trip(key: Option<Seq<u8>>)
    ensures
        RawKeyView::of(key).key() == key,
        RawKeyView::of(key).is_null <==> key is None,
        RawKeyView::of(None) != RawKeyView::of(Some(Seq::empty())),
{
}

/// One live file in the form in which it crosses the boundary: each string
/// with a zero byte at its end, each key as an address and bytes.
#[derive(Clone, Debug, PartialEq, Eq)]
pub struct RawLiveFile {
    pub column_family_name: NulTerminated,
    pub name: NulTerminated,
    pub directory: NulTerminated,
    pub size: usize,
    pub level: i32,
    pub smallest_key: RawKey,
    pub largest_key: RawKey,
    pub smallest_seqno: u64,
    pub largest_seqno: u64,
    pub num_entries: u64,
    pub num_deletions: u64,
}

/// What a [`RawLiveFile`] holds; of each string the bytes before the zero
/// byte.
pub struct RawLiveFileView {
    pub column_family_name: Seq<u8>,
    pub name: Seq<u8>,
    pub directory: Seq<u8>,
    pub size: usize,
    pub level: i32,
    pub smallest_key: RawKeyView,
    pub largest_key: RawKeyView,
    pub smallest_seqno: u64,
    pub largest_seqno: u64,
    pub num_entries: u64,
    pub num_deletions: u64,
}

impl View for RawLiveFile {
    type V = RawLiveFileView;

    open spec fn view(&self) -> RawLiveFileView {
        RawLiveFileView {
            column_family_name: self.column_family_name@,
            name: self.name@,
            directory: self.directory@,
            size: self.size,
            level: self.level,
            smallest_key: self.smallest_key@,
            largest_key: self.largest_key@,
            smallest_seqno: self.smallest_seqno,
            largest_seqno: self.largest_seqno,
            num_entries: self.num_entries,
            num_deletions: self.num_deletions,
        }
    }
}

impl DeepView for RawLiveFile {
    type V = RawLiveFileView;

    open spec fn deep_view(&self) -> RawLiveFileView {
        self@
    }
}

impl LiveFileView {
    /// Whether the description can be handed over: none of its three
    /// strings has a zero byte in its UTF-8 form.
    pub open spec fn can_cross(self) -> bool {
        &&& fits_c_string(self.column_family_name)
        &&& fits_c_string(self.name)
        &&& fits_c_string(self.directory)
    }

    /// The form in which the description is handed over.
    pub open spec fn to_raw(self) -> RawLiveFileView {
        RawLiveFileView {
            column_family_name: encode_utf8(self.column_family_name),
            name: encode_utf8(self.name),
            directory: encode_utf8(self.directory),
            size: self.size,
            level: self.level,
            smallest_key: RawKeyView::of(self.start_key),
            largest_key: RawKeyView::of(self.end_key),
            smallest_seqno: self.smallest_seqno,
            largest_seqno: self.largest_seqno,
            num_entries: self.num_entries,
            num_deletions: self.num_deletions,
        }
    }
}

impl RawLiveFileView {
    /// The description that this form is read as.
    pub open spec fn to_live_file(self) -> LiveFileView {
        LiveFileView {
            column_family_name: text_of(self.column_family_name),
            name: text_of(self.name),
            directory: text_of(self.directory),
            size: self.size,
            level: self.level,
            start_key: self.smallest_key.key(),
            end_key: self.largest_key.key(),
            smallest_seqno: self.smallest_seqno,
            largest_seqno: self.largest_seqno,
            num_entries: self.num_entries,
            num_deletions: self.num_deletions,
        }
    }
}

impl RawLiveFile {
    /// Puts a description into the form in which it is handed over. Fails
    /// where one of its strings holds a zero byte.
    pub fn from_live_file(file: &LiveFile) -> (res: Result<RawLiveFile, MetadataError>)
        ensures
            res is Ok <==> file@.can_cross(),
            res matches Ok(raw) ==> raw@ == file@.to_raw(),
            res matches Err(e) ==> e == MetadataError::InvalidArgument,
    {
        let column_family_name = NulTerminated::new(file.column_family_name.as_str())?;
        let name = NulTerminated::new(file.name.as_str())?;
        let directory = NulTerminated::new(file.directory.as_str())?;
        Ok(
            RawLiveFile {
                column_family_name,
                name,
                directory,
                size: file.size,
                level: file.level,
                smallest_key: RawKey::from_key(&file.start_key),
                largest_key: RawKey::from_key(&file.end_key),
                smallest_seqno: file.smallest_seqno,
                largest_seqno: file.largest_seqno,
                num_entries: file.num_entries,
                num_deletions: file.num_deletions,
            },
        )
    }

    /// Reads the description out of its handed-over form.
    pub fn to_live_file(&self) -> (file: LiveFile)
        ensures
            file@ == self@.to_live_file(),
    {
        LiveFile {
            column_family_name: self.column_family_name.to_string_lossy(),
            name: self.name.to_string_lossy(),
            directory: self.directory.to_string_lossy(),
            size: self.size,
            level: self.level,
            start_key: self.smallest_key.to_key(),
            end_key: self.largest_key.to_key(),
            smallest_seqno: self.smallest_seqno,
            largest_seqno: self.largest_seqno,
            num_entries: self.num_entries,
            num_deletions: self.num_deletions,
        }
    }
}

/// A description can be handed over exactly when none of its three strings
/// holds the character U+0000.
pub proof fn lemma_can_cross_in_chars(file: LiveFileView)
    ensures
        file.can_cross() <==> !file.column_family_name.contains('\0') && !file.name.contains('\0')
            && !file.directory.contains('\0'),
{
    lemma_nul_byte_iff_nul_char(file.column_family_name);
    lemma_nul_byte_iff_nul_char(file.name);
    lemma_nul_byte_iff_nul_char(file.directory);
}

/// A description that was handed over and read back is the description that
/// it was, field for field.
pub proof fn lemma_live_file_round_trip(file: LiveFileView)
    requires
        file.can_cross(),
    ensures
        file.to_raw().to_live_file() == file,
{
    lemma_text_of_encoding(file.column_family_name);
    lemma_text_of_encoding(file.name);
    lemma_text_of_encoding(file.directory);
    lemma_key_round_trip(file.start_key);
    lemma_key_round_trip(file.end_key);
}

} // verus!
