//! Embedded textures and their pixel data.

use crate::raw::{AiStr, Texel};
use vstd::prelude::*;

verus! {

/// How many bytes the format-hint field of a texture record holds.
pub const FORMAT_HINT_LEN: usize = 9;

/// The bytes of `s` before its first zero byte.
pub open spec fn cstr_prefix(s: Seq<u8>) -> Seq<u8>
    decreases s.len(),
{
    if s.len() == 0 {
        Seq::empty()
    } else if s[0] == 0 {
        Seq::empty()
    } else {
        seq![s[0]] + cstr_prefix(s.skip(1))
    }
}

/// The pixel data of a texture: a row of texels.
#[derive(Debug, Clone, PartialEq)]
pub struct TextureData {
    pub texels: Vec<Texel>,
}

impl TextureData {
    /// The texels, in storage order.
    pub fn texels(&self) -> (r: &Vec<Texel>)
        ensures
            r == &self.texels,
    {
        &self.texels
    }

    /// The pixel data flattened to bytes: four bytes per texel, in the
    /// engine's blue, green, red, alpha channel order.
    pub fn bytes(&self) -> (r: Vec<u8>)
        ensures
            r@.len() == 4 * self.texels@.len(),
            forall|i: int|
                0 <= i < self.texels@.len() ==> {
                    &&& r@[4 * i] == self.texels@[i].b
                    &&& r@[4 * i + 1] == self.texels@[i].g
                    &&& r@[4 * i + 2] == self.texels@[i].r
                    &&& r@[4 * i + 3] == self.texels@[i].a
                },
    {
        let n = self.texels.len();
        let mut out: Vec<u8> = Vec::new();
        let mut i: usize = 0;
        while i < n
            invariant
                i <= n,
                n == self.texels@.len(),
                out@.len() == 4 * i,
                forall|j: int|
                    0 <= j < i ==> {
                        &&& out@[4 * j] == self.texels@[j].b
                        &&& out@[4 * j + 1] == self.texels@[j].g
                        &&& out@[4 * j + 2] == self.texels@[j].r
                        &&& out@[4 * j + 3] == self.texels@[j].a
                    },
            decreases n - i,
        {
            let t = self.texels[i];
            out.push(t.b);
            out.push(t.g);
            out.push(t.r);
            out.push(t.a);
            i = i + 1;
        }
        out
    }
}

/// An embedded texture record. For uncompressed data the width and
/// height count pixels and the data holds exactly one texel per pixel;
/// the format hint is a nul-terminated byte field naming the encoding of
/// compressed data.
#[derive(Debug, Clone, PartialEq)]
pub struct Texture {
    pub m_width: u32,
    pub m_height: u32,
    /// The nul-terminated format hint field.
    pub m_format_hint: Vec<u8>,
    pub m_filename: AiStr,
    /// The pixel data, or `None` for a null pointer.
    pub m_data: Option<TextureData>,
}

impl Texture {
    /// The texture record is consistent: the hint field has its fixed
    /// size and ends in a zero byte somewhere, the filename is
    /// consistent, and present pixel data holds one texel per pixel.
    pub open spec fn wf(self) -> bool {
        &&& self.m_format_hint@.len() == FORMAT_HINT_LEN
        &&& exists|i: int| 0 <= i < self.m_format_hint@.len() && self.m_format_hint@[i] == 0
        &&& self.m_filename.wf()
        &&& match self.m_data {
            Option::None => true,
            Option::Some(d) => d.texels@.len() == self.m_width * self.m_height,
        }
    }

    /// This texture's width in pixels.
    pub fn width(&self) -> (r: u32)
        ensures
            r == self.m_width,
    {
        self.m_width
    }

    /// This texture's height in pixels.
    pub fn height(&self) -> (r: u32)
        ensures
            r == self.m_height,
    {
        self.m_height
    }

    /// The width and height as a pair.
    pub fn size(&self) -> (r: (u32, u32))
        ensures
            r == (self.m_width, self.m_height),
    {
        (self.m_width, self.m_height)
    }

    /// The format hint: the bytes before the field's first zero byte, or
    /// absent when the field is empty, which marks raw pixel data.
    pub fn format_hint(&self) -> (r: Option<Vec<u8>>)
        requires
            self.wf(),
        ensures
            match r {
                Some(h) => h@ == cstr_prefix(self.m_format_hint@) && h@.len() > 0,
                None => cstr_prefix(self.m_format_hint@).len() == 0,
            },
    {
        let n = self.m_format_hint.len();
        let mut end: usize = 0;
        while end < n && self.m_format_hint[end] != 0
            invariant
                end <= n,
                n == self.m_format_hint@.len(),
                exists|k: int| 0 <= k < n && self.m_format_hint@[k] == 0,
                forall|j: int| 0 <= j < end ==> self.m_format_hint@[j] != 0,
            decreases n - end,
        {
            end = end + 1;
        }
        proof {
            let k = choose|k: int| 0 <= k < n && self.m_format_hint@[k] == 0;
            assert(end < n);
            lemma_cstr_prefix_upto(self.m_format_hint@, end as int);
        }
        if end == 0 {
            None
        } else {
            let mut out: Vec<u8> = Vec::new();
            for i in 0..end
                invariant
                    end <= self.m_format_hint@.len(),
                    out@ =~= self.m_format_hint@.take(i as int),
            {
                out.push(self.m_format_hint[i]);
                proof {
                    assert(self.m_format_hint@.take(i + 1) =~= self.m_format_hint@.take(
                        i as int,
                    ).push(self.m_format_hint@[i as int]));
                }
            }
            Some(out)
        }
    }

    /// The texture's original filename.
    pub fn filename(&self) -> (r: Vec<u8>)
        requires
            self.wf(),
        ensures
            r@ == self.m_filename.chars(),
    {
        self.m_filename.decode()
    }

    /// The pixel data, absent when the record carries none. Out of a
    /// consistent texture it holds exactly one texel per pixel.
    pub fn data(&self) -> (r: Option<&TextureData>)
        ensures
            match r {
                Some(d) => self.m_data == Some(*d),
                None => self.m_data is None,
            },
            self.wf() ==> (r matches Some(d) ==> d.texels@.len() == self.m_width
                * self.m_height),
    {
        match &self.m_data {
            Some(d) => Some(d),
            None => None,
        }
    }
}

/// When the first `k` bytes of `s` are nonzero and, if `s` goes on, the
/// byte at `k` is zero, the prefix before the first zero byte is exactly
/// the first `k` bytes.
proof fn lemma_cstr_prefix_upto(s: Seq<u8>, k: int)
    requires
        0 <= k <= s.len(),
        forall|j: int| 0 <= j < k ==> s[j] != 0,
        k < s.len() ==> s[k] == 0,
    ensures
        cstr_prefix(s) == s.take(k),
    decreases s.len(),
{
    if s.len() == 0 {
        assert(cstr_prefix(s) =~= s.take(k));
    } else if k == 0 {
        assert(cstr_prefix(s) =~= s.take(0));
    } else {
        lemma_cstr_prefix_upto(s.skip(1), k - 1);
        assert(s.skip(1).take(k - 1) =~= s.take(k).skip(1));
        assert(cstr_prefix(s) =~= seq![s[0]] + cstr_prefix(s.skip(1)));
        assert(cstr_prefix(s) =~= s.take(k));
    }
}

} // verus!
