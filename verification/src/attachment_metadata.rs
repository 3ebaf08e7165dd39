//! Attachment metadata stored in `typedstream` `attributedBody` data: which
//! archived components hold each field.

use vstd::prelude::*;

use crate::text::str_eq;

verus! {

/// What an archived `typedstream` component can be read as
#[derive(Debug, PartialEq, Eq)]
pub enum ComponentKind<'a> {
    /// An `NSString`, holding its text
    NsString(&'a str),
    /// An `NSNumber` holding a floating point number
    NsNumberFloat,
    /// Anything else
    Other,
}

/// Where the attachment metadata fields are: the strings themselves, and the
/// positions of the components that hold the numbers.
#[derive(Debug, PartialEq, Eq)]
pub struct AttachmentMetaSlots<'a> {
    /// GUID of the attachment in the table
    pub guid: Option<&'a str>,
    /// The transcription of an audio message
    pub transcription: Option<&'a str>,
    /// Position of the component holding the height of the attachment in points
    pub height: Option<usize>,
    /// Position of the component holding the width of the attachment in points
    pub width: Option<usize>,
    /// The attachment's original filename
    pub name: Option<&'a str>,
}

pub open spec fn guid_key() -> Seq<char> {
    "__kIMFileTransferGUIDAttributeName"@
}

pub open spec fn transcription_key() -> Seq<char> {
    "IMAudioTranscription"@
}

pub open spec fn height_key() -> Seq<char> {
    "__kIMInlineMediaHeightAttributeName"@
}

pub open spec fn width_key() -> Seq<char> {
    "__kIMInlineMediaWidthAttributeName"@
}

pub open spec fn name_key() -> Seq<char> {
    "__kIMFilenameAttributeName"@
}

/// Whether component `c` is the string `key`.
pub open spec fn is_key(c: ComponentKind, key: Seq<char>) -> bool {
    c matches ComponentKind::NsString(s) && s@ == key
}

/// Whether component `c` is one of the keys of the metadata fields.
pub open spec fn is_field_key(c: ComponentKind) -> bool {
    is_key(c, guid_key()) || is_key(c, transcription_key()) || is_key(c, height_key()) || is_key(
        c,
        width_key(),
    ) || is_key(c, name_key())
}

/// The position of the last `key` among the first `n` components.
pub open spec fn last_key_before(cs: Seq<ComponentKind>, key: Seq<char>, n: int) -> Option<int>
    decreases n,
{
    if n <= 0 {
        None
    } else if is_key(cs[n - 1], key) {
        Some(n - 1)
    } else {
        last_key_before(cs, key, n - 1)
    }
}

/// The text of component `c`, if it is a string.
pub open spec fn text_of<'a>(c: ComponentKind<'a>) -> Option<&'a str> {
    match c {
        ComponentKind::NsString(s) => Some(s),
        _ => None,
    }
}

/// The string that follows the last `key` among the first `n` components.
pub open spec fn text_after_key<'a>(cs: Seq<ComponentKind<'a>>, key: Seq<char>, n: int) -> Option<
    &'a str,
> {
    match last_key_before(cs, key, n) {
        Some(i) => text_of(cs[i + 1]),
        None => None,
    }
}

/// The position of the number that follows the last `key` among the first `n` components.
pub open spec fn float_after_key(cs: Seq<ComponentKind>, key: Seq<char>, n: int) -> Option<usize> {
    match last_key_before(cs, key, n) {
        Some(i) => if cs[i + 1] is NsNumberFloat {
            Some((i + 1) as usize)
        } else {
            None
        },
        None => None,
    }
}

/// Whether the metadata fields read from the first `n` components are those of `m`.
pub open spec fn slots_after(cs: Seq<ComponentKind>, n: int, m: AttachmentMetaSlots) -> bool {
    &&& m.guid == text_after_key(cs, guid_key(), n)
    &&& m.transcription == text_after_key(cs, transcription_key(), n)
    &&& m.height == float_after_key(cs, height_key(), n)
    &&& m.width == float_after_key(cs, width_key(), n)
    &&& m.name == text_after_key(cs, name_key(), n)
}

/// Given the archived components, find the attachment's metadata fields.
///
/// Each field is read from the component after the last component that names it: a string
/// for the GUID, transcription and file name, a number for the height and width (the field
/// is empty when that component is of another kind). There is no metadata when the last
/// component names a field, as nothing follows it.
pub fn from_components<'a>(components: &[ComponentKind<'a>]) -> (res: Option<
    AttachmentMetaSlots<'a>,
>)
    ensures
        components@.len() > 0 && is_field_key(components@.last()) ==> res is None,
        !(components@.len() > 0 && is_field_key(components@.last())) ==> (res matches Some(m)
            && slots_after(components@, components@.len() as int, m)),
{
    let mut meta = AttachmentMetaSlots {
        guid: None,
        transcription: None,
        height: None,
        width: None,
        name: None,
    };
    let len = components.len();
    let mut idx: usize = 0;
    while idx < len
        invariant
            len == components@.len(),
            idx <= len,
            slots_after(components@, idx as int, meta),
            forall|j: int| 0 <= j < idx && j == len - 1 ==> !is_field_key(components@[j]),
        decreases len - idx,
    {
        let ghost cs = components@;
        proof {
            reveal_strlit("__kIMFileTransferGUIDAttributeName");
            reveal_strlit("IMAudioTranscription");
            reveal_strlit("__kIMInlineMediaHeightAttributeName");
            reveal_strlit("__kIMInlineMediaWidthAttributeName");
            reveal_strlit("__kIMFilenameAttributeName");
            assert(guid_key().len() == 34 && transcription_key().len() == 20 && height_key().len()
                == 35 && width_key().len() == 34 && name_key().len() == 26);
            assert(guid_key()[5] != width_key()[5]);
            assert(height_key()[22] != width_key()[22]);
            assert(height_key() != name_key() && width_key() != name_key());
        }
        if let ComponentKind::NsString(key_name) = &components[idx] {
            if str_eq(key_name, "__kIMFileTransferGUIDAttributeName") {
                if idx + 1 >= len {
                    return None;
                }
                meta.guid = match &components[idx + 1] {
                    ComponentKind::NsString(s) => Some(*s),
                    _ => None,
                };
            } else if str_eq(key_name, "IMAudioTranscription") {
                if idx + 1 >= len {
                    return None;
                }
                meta.transcription = match &components[idx + 1] {
                    ComponentKind::NsString(s) => Some(*s),
                    _ => None,
                };
            } else if str_eq(key_name, "__kIMInlineMediaHeightAttributeName") {
                if idx + 1 >= len {
                    return None;
                }
                meta.height = match &components[idx + 1] {
                    ComponentKind::NsNumberFloat => Some(idx + 1),
                    _ => None,
                };
            } else if str_eq(key_name, "__kIMInlineMediaWidthAttributeName") {
                if idx + 1 >= len {
                    return None;
                }
                meta.width = match &components[idx + 1] {
                    ComponentKind::NsNumberFloat => Some(idx + 1),
                    _ => None,
                };
            } else if str_eq(key_name, "__kIMFilenameAttributeName") {
                if idx + 1 >= len {
                    return None;
                }
                meta.name = match &components[idx + 1] {
                    ComponentKind::NsString(s) => Some(*s),
                    _ => None,
                };
            }
        }
        assert(last_key_before(cs, guid_key(), idx + 1) == if is_key(cs[idx as int], guid_key()) {
            Some(idx as int)
        } else {
            last_key_before(cs, guid_key(), idx as int)
        });
        idx = idx + 1;
    }
    Some(meta)
}

} // verus!
