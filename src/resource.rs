use vstd::prelude::*;

verus! {

/// What a resource may be used for by recorded commands.
#[derive(Clone, Copy, Debug, PartialEq, Eq, Structural)]
pub struct Usage {
    pub transfer_src: bool,
    pub transfer_dst: bool,
    pub storage: bool,
    pub vertex: bool,
    pub color_attachment: bool,
}

impl Usage {
    pub fn all() -> (r: Usage)
        ensures
            r.transfer_src && r.transfer_dst && r.storage && r.vertex && r.color_attachment,
    {
        Usage {
            transfer_src: true,
            transfer_dst: true,
            storage: true,
            vertex: true,
            color_attachment: true,
        }
    }
}

/// Pixel formats of images: four 8-bit unsigned normalised channels.
#[derive(Clone, Copy, Debug, PartialEq, Eq, Structural)]
pub enum Format {
    Rgba8Unorm,
}

/// An 8-bit-per-channel RGBA colour.
#[derive(Clone, Copy, Debug, PartialEq, Eq, Structural)]
pub struct Color {
    pub r: u8,
    pub g: u8,
    pub b: u8,
    pub a: u8,
}

/// A colour as one 32-bit word, red in the lowest byte (RGBA byte order in
/// little-endian memory).
pub open spec fn packed(c: Color) -> u32 {
    (c.r as int + 256 * c.g as int + 65536 * c.b as int + 16777216 * c.a as int) as u32
}

impl Color {
    pub fn pack(&self) -> (r: u32)
        ensures
            r == packed(*self),
    {
        self.r as u32 + 256 * (self.g as u32) + 65536 * (self.b as u32) + 16777216 * (
        self.a as u32)
    }
}

/// Byte `k` (0 = lowest) of word `w`.
pub open spec fn byte_of(w: u32, k: int) -> u8 {
    if k == 0 {
        (w % 256) as u8
    } else if k == 1 {
        ((w / 256) % 256) as u8
    } else if k == 2 {
        ((w / 65536) % 256) as u8
    } else {
        (w / 16777216) as u8
    }
}

/// The little-endian byte image of a sequence of words.
pub open spec fn bytes_of(words: Seq<u32>) -> Seq<u8> {
    Seq::new(4 * words.len(), |i: int| byte_of(words[i / 4], i % 4))
}

/// Flattens words into their little-endian bytes.
pub fn to_bytes(words: &Vec<u32>) -> (r: Vec<u8>)
    requires
        4 * words@.len() <= usize::MAX,
    ensures
        r@ == bytes_of(words@),
{
    let mut out: Vec<u8> = Vec::new();
    let mut i: usize = 0;
    while i < words.len()
        invariant
            i <= words@.len(),
            4 * words@.len() <= usize::MAX,
            out@.len() == 4 * i,
            forall|j: int| 0 <= j < 4 * i ==> out@[j] == byte_of(words@[j / 4], j % 4),
        decreases words@.len() - i,
    {
        let w = words[i];
        out.push((w % 256) as u8);
        out.push(((w / 256) % 256) as u8);
        out.push(((w / 65536) % 256) as u8);
        out.push((w / 16777216) as u8);
        i = i + 1;
    }
    assert(out@ =~= bytes_of(words@));
    out
}

/// Largest number of 32-bit words one resource may hold.
pub const MAX_WORDS: usize = 67108864;

#[derive(Clone, Copy, Debug, PartialEq, Eq, Structural)]
pub enum ResourceKind {
    Buffer { host_visible: bool },
    Image { width: u32, height: u32, format: Format },
}

/// The declared shape of a resource. Buffers hold `words` 32-bit elements;
/// images hold one packed pixel per word, row-major, `width * height` of them.
#[derive(Clone, Copy, Debug, PartialEq, Eq, Structural)]
pub struct ResourceDesc {
    pub kind: ResourceKind,
    pub usage: Usage,
    pub words: usize,
}

impl ResourceDesc {
    pub open spec fn wf(self) -> bool {
        &&& 0 < self.words <= MAX_WORDS
        &&& match self.kind {
            ResourceKind::Buffer { .. } => true,
            ResourceKind::Image { width, height, .. } => self.words == width * height,
        }
    }

    pub open spec fn is_buffer(self) -> bool {
        self.kind is Buffer
    }

    pub open spec fn is_host_visible(self) -> bool {
        match self.kind {
            ResourceKind::Buffer { host_visible } => host_visible,
            ResourceKind::Image { .. } => false,
        }
    }

    pub open spec fn is_image(self) -> bool {
        self.kind is Image
    }
}

/// Describes a buffer of `words` elements, or fails on an empty or oversized request.
pub fn buffer_desc(words: usize, usage: Usage, host_visible: bool) -> (r: Option<ResourceDesc>)
    ensures
        r is Some <==> 0 < words <= MAX_WORDS,
        r matches Some(d) ==> d.wf() && d.words == words && d.usage == usage && d.kind
            == (ResourceKind::Buffer { host_visible }),
{
    if words == 0 || words > MAX_WORDS {
        None
    } else {
        Some(ResourceDesc { kind: ResourceKind::Buffer { host_visible }, usage, words })
    }
}

/// Describes a device-local image, or fails on a zero or oversized extent.
pub fn image_desc(width: u32, height: u32, format: Format, usage: Usage) -> (r: Option<
    ResourceDesc,
>)
    ensures
        r is Some <==> (width > 0 && height > 0 && width * height <= MAX_WORDS),
        r matches Some(d) ==> d.wf() && d.words == width * height && d.usage == usage && d.kind
            == (ResourceKind::Image { width, height, format }),
{
    if width == 0 || height == 0 {
        return None;
    }
    proof {
        assert(1 <= width as int * height as int <= 0xffff_ffff * 0xffff_ffff) by (nonlinear_arith)
            requires
                width >= 1,
                height >= 1,
                width as int <= 0xffff_ffff,
                height as int <= 0xffff_ffff,
        ;
    }
    let total: u64 = width as u64 * height as u64;
    assert(total as int == width as int * height as int);
    if total > MAX_WORDS as u64 {
        None
    } else {
        Some(
            ResourceDesc {
                kind: ResourceKind::Image { width, height, format },
                usage,
                words: total as usize,
            },
        )
    }
}

} // verus!
