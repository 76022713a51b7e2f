//! Entry metadata: the description of one filesystem entry that travels with
//! each message, built from a raw attribute snapshot.
use vstd::prelude::*;

verus! {

/// The mask of a mode's file type field.
pub const S_IFMT: u32 = 0o170000;
/// Block device type bits.
pub const S_IFBLK: u32 = 0o060000;
/// Character device type bits.
pub const S_IFCHR: u32 = 0o020000;
/// FIFO type bits.
pub const S_IFIFO: u32 = 0o010000;
/// Socket type bits.
pub const S_IFSOCK: u32 = 0o140000;
/// The owner, group and other execute bits together.
pub const EXEC_BITS: u32 = 0o111;

/// The kind of a filesystem entry.
#[derive(Clone, Copy, Debug, PartialEq, Eq, Structural)]
pub enum FileType {
    RegularFile,
    Directory,
    SymbolicLink,
    BlockDevice,
    CharacterDevice,
    Fifo,
    Socket,
    Unknown,
}

/// The attributes of an entry as a stat-like call reported them.
#[derive(Clone, Copy, Debug, PartialEq, Eq, Structural)]
pub struct AttrSnapshot {
    pub is_file: bool,
    pub is_dir: bool,
    pub is_symlink: bool,
    /// The raw mode: type bits and permission bits.
    pub mode: u32,
    /// Size in bytes.
    pub len: u64,
    /// Last modification, in seconds since the epoch; `None` where the
    /// platform does not report it.
    pub modified_time: Option<u64>,
    /// Creation, in seconds since the epoch; `None` where the platform does
    /// not report it.
    pub created_time: Option<u64>,
}

/// Why metadata could not be built from a snapshot.
#[derive(Clone, Copy, Debug, PartialEq, Eq, Structural)]
pub enum MetadataError {
    /// The snapshot has no modification time.
    NoModifiedTime,
}

/// The description of one entry, as sent with each message.
#[derive(Clone, Debug)]
pub struct FileMetadata {
    pub path: String,
    pub file_type: FileType,
    pub size: u64,
    pub permissions: u32,
    pub modified_time: u64,
    pub created_time: u64,
    pub is_executable: bool,
    pub mime_type: String,
}

/// The file type field of a mode.
pub open spec fn type_field(mode: u32) -> u32 {
    mode & S_IFMT
}

/// The kind of an entry: what the snapshot says first, then the mode's type
/// type field, with `Unknown` where the field is none of those known.
pub open spec fn kind_of(a: AttrSnapshot) -> FileType {
    if a.is_file {
        FileType::RegularFile
    } else if a.is_dir {
        FileType::Directory
    } else if a.is_symlink {
        FileType::SymbolicLink
    } else if type_field(a.mode) == S_IFBLK {
        FileType::BlockDevice
    } else if type_field(a.mode) == S_IFCHR {
        FileType::CharacterDevice
    } else if type_field(a.mode) == S_IFIFO {
        FileType::Fifo
    } else if type_field(a.mode) == S_IFSOCK {
        FileType::Socket
    } else {
        FileType::Unknown
    }
}

/// Whether any execute bit is set in the mode.
pub open spec fn executable(mode: u32) -> bool {
    mode & EXEC_BITS != 0
}

/// The MIME type for a file extension.
pub open spec fn mime_of(ext: Option<Seq<char>>) -> Seq<char> {
    match ext {
        Some(e) => if e == "txt"@ {
            "text/plain"@
        } else if e == "html"@ || e == "htm"@ {
            "text/html"@
        } else if e == "css"@ {
            "text/css"@
        } else if e == "js"@ {
            "application/javascript"@
        } else if e == "json"@ {
            "application/json"@
        } else if e == "png"@ {
            "image/png"@
        } else if e == "jpg"@ || e == "jpeg"@ {
            "image/jpeg"@
        } else if e == "gif"@ {
            "image/gif"@
        } else if e == "pdf"@ {
            "application/pdf"@
        } else if e == "zip"@ {
            "application/zip"@
        } else if e == "rs"@ {
            "text/x-rust"@
        } else if e == "py"@ {
            "text/x-python"@
        } else if e == "c"@ {
            "text/x-c"@
        } else if e == "cpp"@ || e == "cc"@ {
            "text/x-c++"@
        } else {
            "application/octet-stream"@
        },
        None => "application/octet-stream"@,
    }
}

/// The extension of a path, as std's path handling finds it.
pub uninterp spec fn extension_of(path: Seq<char>) -> Option<Seq<char>>;

/// Relies on `std::path::Path::extension`, read as text with `OsStr::to_str`
/// (always text here, since the path is): the extension of the path's last
/// component, if it has one.
#[verifier::external_body]
fn path_extension(path: &str) -> (r: Option<String>)
    ensures
        match r {
            Some(e) => extension_of(path@) == Some(e@),
            None => extension_of(path@) == None::<Seq<char>>,
        },
{
    let ext = std::path::Path::new(path).extension()?;
    Some(ext.to_str()?.to_owned())
}

fn text_is(s: &str, lit: &str) -> (r: bool)
    ensures
        r == (s@ == lit@),
{
    let a = s.to_owned();
    let b = lit.to_owned();
    a == b
}

fn owned(lit: &str) -> (r: String)
    ensures
        r@ == lit@,
{
    lit.to_owned()
}

/// The MIME type for a file extension; `application/octet-stream` when the
/// extension is missing or not one of those known.
pub fn mime_for_extension(ext: Option<&str>) -> (r: String)
    ensures
        r@ == mime_of(
            match ext {
                Some(e) => Some(e@),
                None => None,
            },
        ),
{
    match ext {
        None => owned("application/octet-stream"),
        Some(e) => {
            if text_is(e, "txt") {
                owned("text/plain")
            } else if text_is(e, "html") || text_is(e, "htm") {
                owned("text/html")
            } else if text_is(e, "css") {
                owned("text/css")
            } else if text_is(e, "js") {
                owned("application/javascript")
            } else if text_is(e, "json") {
                owned("application/json")
            } else if text_is(e, "png") {
                owned("image/png")
            } else if text_is(e, "jpg") || text_is(e, "jpeg") {
                owned("image/jpeg")
            } else if text_is(e, "gif") {
                owned("image/gif")
            } else if text_is(e, "pdf") {
                owned("application/pdf")
            } else if text_is(e, "zip") {
                owned("application/zip")
            } else if text_is(e, "rs") {
                owned("text/x-rust")
            } else if text_is(e, "py") {
                owned("text/x-python")
            } else if text_is(e, "c") {
                owned("text/x-c")
            } else if text_is(e, "cpp") || text_is(e, "cc") {
                owned("text/x-c++")
            } else {
                owned("application/octet-stream")
            }
        },
    }
}

/// The MIME type of a path, by its extension.
pub fn detect_mime_type(path: &str) -> (r: String)
    ensures
        r@ == mime_of(extension_of(path@)),
{
    let ext = path_extension(path);
    match &ext {
        Some(e) => mime_for_extension(Some(e.as_str())),
        None => mime_for_extension(None),
    }
}

/// The kind of the entry a snapshot describes.
pub fn file_type_of(a: &AttrSnapshot) -> (r: FileType)
    ensures
        r == kind_of(*a),
{
    if a.is_file {
        FileType::RegularFile
    } else if a.is_dir {
        FileType::Directory
    } else if a.is_symlink {
        FileType::SymbolicLink
    } else if a.mode & S_IFMT == S_IFBLK {
        FileType::BlockDevice
    } else if a.mode & S_IFMT == S_IFCHR {
        FileType::CharacterDevice
    } else if a.mode & S_IFMT == S_IFIFO {
        FileType::Fifo
    } else if a.mode & S_IFMT == S_IFSOCK {
        FileType::Socket
    } else {
        FileType::Unknown
    }
}

/// Whether any execute bit is set in a mode.
pub fn is_executable_mode(mode: u32) -> (r: bool)
    ensures
        r == executable(mode),
{
    mode & EXEC_BITS != 0
}

impl FileMetadata {
    /// Builds the metadata of the entry at `path` from its attributes.
    ///
    /// Fails only when the snapshot has no modification time; a missing
    /// creation time reads as the epoch.
    pub fn new(path: &str, attrs: &AttrSnapshot) -> (r: Result<FileMetadata, MetadataError>)
        ensures
            r is Err <==> attrs.modified_time is None,
            r is Err ==> r->Err_0 == MetadataError::NoModifiedTime,
            r is Ok ==> ({
                let m = r->Ok_0;
                &&& m.path@ == path@
                &&& m.file_type == kind_of(*attrs)
                &&& m.size == attrs.len
                &&& m.permissions == attrs.mode
                &&& m.modified_time == attrs.modified_time->Some_0
                &&& m.created_time == match attrs.created_time {
                    Some(t) => t,
                    None => 0,
                }
                &&& m.is_executable == executable(attrs.mode)
                &&& m.mime_type@ == mime_of(extension_of(path@))
            }),
    {
        let modified_time = match attrs.modified_time {
            Some(t) => t,
            None => return Err(MetadataError::NoModifiedTime),
        };
        let created_time = match attrs.created_time {
            Some(t) => t,
            None => 0,
        };
        Ok(FileMetadata {
            path: path.to_owned(),
            file_type: file_type_of(attrs),
            size: attrs.len,
            permissions: attrs.mode,
            modified_time,
            created_time,
            is_executable: is_executable_mode(attrs.mode),
            mime_type: detect_mime_type(path),
        })
    }

    /// Whether a descriptor is to be opened and sent with this entry: only
    /// regular files carry one.
    pub fn carries_descriptor(&self) -> (r: bool)
        ensures
            r == (self.file_type == FileType::RegularFile),
    {
        match self.file_type {
            FileType::RegularFile => true,
            _ => false,
        }
    }
}

} // verus!
