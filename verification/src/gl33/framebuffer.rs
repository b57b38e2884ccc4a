//! Framebuffers: attachment assembly and completeness.

use vstd::prelude::*;
use vstd::string::StringExecFns;
use crate::call::Call;
use crate::gl33::texture::{
    configuration, create_texture, default_sampler, target_of, to_target, GLTexture, Layering,
    Sampler, Size, TextureError,
};
use crate::glenum;
use crate::pixel::{resolve, PixelFormat};

verus! {

/// A render target. The handle 0 is the window's own framebuffer, which owns
/// nothing.
#[derive(Clone, Copy, Debug, PartialEq, Eq, Structural)]
pub struct GLFramebuffer {
    pub handle: u32,
    pub renderbuffer: Option<u32>,
    pub w: u32,
    pub h: u32,
}

#[derive(Clone, Debug, PartialEq, Eq)]
pub enum FramebufferError {
    /// An attachment could not be created.
    TextureError(TextureError),
    /// The driver found the framebuffer incomplete, for the reason given.
    Incomplete(String),
}

/// The fresh driver objects that a framebuffer is assembled from: one texture
/// per color format, then one for the depth format where there is one, and a
/// renderbuffer exactly where there is none.
#[derive(Clone, Debug, PartialEq, Eq)]
pub struct Handles {
    pub framebuffer: u32,
    pub textures: Vec<u32>,
    pub renderbuffer: Option<u32>,
}

/// Why a framebuffer status other than complete was reported.
pub open spec fn status_reason(status: u32) -> Seq<char> {
    if status == glenum::FRAMEBUFFER_UNDEFINED {
        "framebuffer undefined"@
    } else if status == glenum::FRAMEBUFFER_INCOMPLETE_ATTACHMENT {
        "incomplete attachment"@
    } else if status == glenum::FRAMEBUFFER_INCOMPLETE_MISSING_ATTACHMENT {
        "incomplete missing attachment"@
    } else if status == glenum::FRAMEBUFFER_INCOMPLETE_DRAW_BUFFER {
        "incomplete draw buffer"@
    } else if status == glenum::FRAMEBUFFER_INCOMPLETE_READ_BUFFER {
        "incomplete read buffer"@
    } else if status == glenum::FRAMEBUFFER_UNSUPPORTED {
        "unsupported"@
    } else if status == glenum::FRAMEBUFFER_INCOMPLETE_MULTISAMPLE {
        "incomplete multisample"@
    } else if status == glenum::FRAMEBUFFER_INCOMPLETE_LAYER_TARGETS {
        "incomplete layer targets"@
    } else {
        "unknown"@
    }
}

/// Number of textures that a framebuffer with these formats is made of.
pub open spec fn texture_count(color_formats: Seq<PixelFormat>, depth_format: Option<PixelFormat>) -> int {
    color_formats.len() + (if depth_format.is_some() {
        1int
    } else {
        0int
    })
}

/// Whether every attachment of a framebuffer can be created.
pub open spec fn attachable(
    l: Layering,
    color_formats: Seq<PixelFormat>,
    depth_format: Option<PixelFormat>,
) -> bool {
    &&& l == Layering::Flat
    &&& forall|i: int| 0 <= i < color_formats.len() ==> resolve(#[trigger] color_formats[i]).is_some()
    &&& depth_format matches Some(pf) ==> resolve(pf).is_some()
}

/// Handles that fit the formats of a framebuffer.
pub open spec fn fitting(
    handles: Handles,
    color_formats: Seq<PixelFormat>,
    depth_format: Option<PixelFormat>,
) -> bool {
    &&& handles.textures@.len() == texture_count(color_formats, depth_format)
    &&& depth_format.is_none() <==> handles.renderbuffer.is_some()
    &&& color_formats.len() <= u32::MAX - glenum::COLOR_ATTACHMENT0
}

/// Calls that create `texture` with a default sampler and attach it at
/// `point`.
pub open spec fn attachment(
    target: u32,
    texture: u32,
    size: Size,
    mipmaps: usize,
    pf: PixelFormat,
    point: u32,
) -> Seq<Call> {
    seq![Call::BindTexture { target, texture }] + configuration(
        target,
        size,
        mipmaps,
        pf,
        default_sampler(),
    ) + seq![Call::FramebufferTexture { target: glenum::FRAMEBUFFER, attachment: point, texture, level: 0 }]
}

/// Calls that create and attach the first `n` color textures, each at the
/// color attachment of its position.
pub open spec fn color_attachments(
    target: u32,
    textures: Seq<u32>,
    size: Size,
    mipmaps: usize,
    color_formats: Seq<PixelFormat>,
    n: int,
) -> Seq<Call>
    decreases n,
{
    if n <= 0 {
        Seq::empty()
    } else {
        color_attachments(target, textures, size, mipmaps, color_formats, n - 1) + attachment(
            target,
            textures[n - 1],
            size,
            mipmaps,
            color_formats[n - 1],
            (glenum::COLOR_ATTACHMENT0 + (n - 1)) as u32,
        )
    }
}

/// Calls that give the framebuffer its color targets: the color textures, or
/// an explicitly disabled draw buffer where there are none.
pub open spec fn color_part(
    target: u32,
    textures: Seq<u32>,
    size: Size,
    mipmaps: usize,
    color_formats: Seq<PixelFormat>,
) -> Seq<Call> {
    if color_formats.len() == 0 {
        seq![Call::DrawBuffer { buffer: glenum::NONE }]
    } else {
        color_attachments(
            target,
            textures,
            size,
            mipmaps,
            color_formats,
            color_formats.len() as int,
        )
    }
}

/// Calls that give the framebuffer its depth attachment: the last texture
/// where there is a depth format, else a renderbuffer of 32-bit floating-point
/// depth as large as the framebuffer.
pub open spec fn depth_part(
    target: u32,
    handles: Handles,
    size: Size,
    mipmaps: usize,
    depth_format: Option<PixelFormat>,
) -> Seq<Call> {
    match depth_format {
        Some(pf) => attachment(
            target,
            handles.textures@.last(),
            size,
            mipmaps,
            pf,
            glenum::DEPTH_ATTACHMENT,
        ),
        None => seq![
            Call::BindRenderbuffer {
                target: glenum::RENDERBUFFER,
                renderbuffer: handles.renderbuffer.unwrap(),
            },
            Call::RenderbufferStorage {
                target: glenum::RENDERBUFFER,
                internal_format: glenum::DEPTH_COMPONENT32F,
                width: size.spec_width(),
                height: size.spec_height(),
            },
            Call::BindRenderbuffer { target: glenum::RENDERBUFFER, renderbuffer: 0 },
            Call::FramebufferRenderbuffer {
                target: glenum::FRAMEBUFFER,
                attachment: glenum::DEPTH_ATTACHMENT,
                renderbuffer_target: glenum::RENDERBUFFER,
                renderbuffer: handles.renderbuffer.unwrap(),
            },
        ],
    }
}

/// Calls that assemble a framebuffer, up to the point where its status is
/// read: the framebuffer is bound and stays bound, its color and depth
/// attachments are made, and no texture is left bound.
pub open spec fn assembly(
    handles: Handles,
    size: Size,
    mipmaps: usize,
    color_formats: Seq<PixelFormat>,
    depth_format: Option<PixelFormat>,
) -> Seq<Call> {
    let target = target_of(Layering::Flat, size.dimension()).unwrap();
    seq![Call::BindFramebuffer { target: glenum::FRAMEBUFFER, framebuffer: handles.framebuffer }]
        + color_part(target, handles.textures@, size, mipmaps, color_formats) + depth_part(
        target,
        handles,
        size,
        mipmaps,
        depth_format,
    ) + seq![Call::BindTexture { target, texture: 0 }]
}

/// Calls that delete the first `n` of some textures, in order.
pub open spec fn texture_disposal(textures: Seq<u32>, n: int) -> Seq<Call> {
    Seq::new(n as nat, |i: int| Call::DeleteTexture { texture: textures[i] })
}

/// Calls that release what a framebuffer owns besides its textures: its
/// renderbuffer where it has one, then its handle unless it is the window's.
pub open spec fn release(framebuffer: GLFramebuffer) -> Seq<Call> {
    (match framebuffer.renderbuffer {
        Some(renderbuffer) => seq![Call::DeleteRenderbuffer { renderbuffer }],
        None => Seq::empty(),
    }) + (if framebuffer.handle != 0 {
        seq![Call::DeleteFramebuffer { framebuffer: framebuffer.handle }]
    } else {
        Seq::empty()
    })
}

/// The framebuffer that is described once assembly has run.
pub open spec fn assembled(handles: Handles, size: Size) -> GLFramebuffer {
    GLFramebuffer {
        handle: handles.framebuffer,
        renderbuffer: handles.renderbuffer,
        w: size.spec_width(),
        h: size.spec_height(),
    }
}

/// Calls that release everything a framebuffer was to be assembled from:
/// every texture, then the renderbuffer that stands in for a depth texture,
/// then the framebuffer.
pub open spec fn disposal(handles: Handles, size: Size) -> Seq<Call> {
    texture_disposal(handles.textures@, handles.textures@.len() as int) + release(
        assembled(handles, size),
    )
}

/// Calls that follow the status check of an assembled framebuffer: it is
/// unbound, and where it is not complete everything it was assembled from is
/// released.
pub open spec fn conclusion(status: u32, handles: Handles, size: Size) -> Seq<Call> {
    seq![Call::BindFramebuffer { target: glenum::FRAMEBUFFER, framebuffer: 0 }] + (if status
        == glenum::FRAMEBUFFER_COMPLETE {
        Seq::empty()
    } else {
        disposal(handles, size)
    })
}

/// Number of textures to generate for a framebuffer with these formats.
pub fn required_textures(color_formats: &[PixelFormat], depth_format: &Option<PixelFormat>) -> (n:
    usize)
    requires
        texture_count(color_formats@, *depth_format) <= usize::MAX,
    ensures
        n == texture_count(color_formats@, *depth_format),
{
    color_formats.len() + if depth_format.is_some() {
        1
    } else {
        0
    }
}

/// Whether a framebuffer with this depth format needs a renderbuffer for its
/// depth attachment.
pub fn needs_renderbuffer(depth_format: &Option<PixelFormat>) -> (yes: bool)
    ensures
        yes == depth_format.is_none(),
{
    depth_format.is_none()
}

/// Reads a framebuffer status: `None` for a complete framebuffer, else the
/// reason why it is not.
pub fn get_status(status: u32) -> (incomplete: Option<String>)
    ensures
        status == glenum::FRAMEBUFFER_COMPLETE ==> incomplete.is_none(),
        status != glenum::FRAMEBUFFER_COMPLETE ==> incomplete.is_some() && incomplete.unwrap()@
            == status_reason(status),
{
    if status == glenum::FRAMEBUFFER_COMPLETE {
        None
    } else if status == glenum::FRAMEBUFFER_UNDEFINED {
        Some(String::from_str("framebuffer undefined"))
    } else if status == glenum::FRAMEBUFFER_INCOMPLETE_ATTACHMENT {
        Some(String::from_str("incomplete attachment"))
    } else if status == glenum::FRAMEBUFFER_INCOMPLETE_MISSING_ATTACHMENT {
        Some(String::from_str("incomplete missing attachment"))
    } else if status == glenum::FRAMEBUFFER_INCOMPLETE_DRAW_BUFFER {
        Some(String::from_str("incomplete draw buffer"))
    } else if status == glenum::FRAMEBUFFER_INCOMPLETE_READ_BUFFER {
        Some(String::from_str("incomplete read buffer"))
    } else if status == glenum::FRAMEBUFFER_UNSUPPORTED {
        Some(String::from_str("unsupported"))
    } else if status == glenum::FRAMEBUFFER_INCOMPLETE_MULTISAMPLE {
        Some(String::from_str("incomplete multisample"))
    } else if status == glenum::FRAMEBUFFER_INCOMPLETE_LAYER_TARGETS {
        Some(String::from_str("incomplete layer targets"))
    } else {
        Some(String::from_str("unknown"))
    }
}

/// Calls that create `texture` with a default sampler and attach it at
/// `point` of the bound framebuffer.
fn attach_texture(
    target: u32,
    texture: u32,
    l: Layering,
    size: Size,
    mipmaps: usize,
    pf: PixelFormat,
    point: u32,
) -> (r: Result<Vec<Call>, TextureError>)
    requires
        mipmaps <= i32::MAX,
    ensures
        l == Layering::Flat && resolve(pf).is_some() ==> r is Ok && r->Ok_0@ == attachment(
            target,
            texture,
            size,
            mipmaps,
            pf,
            point,
        ),
        !(l == Layering::Flat && resolve(pf).is_some()) ==> r == Err::<Vec<Call>, TextureError>(
            TextureError::UnsupportedFormat,
        ),
{
    let sampler = Sampler::default();
    let mut configuration = match create_texture(target, l, size, mipmaps, pf, &sampler) {
        Ok(configuration) => configuration,
        Err(e) => {
            return Err(e);
        },
    };
    let mut calls = vec![Call::BindTexture { target, texture }];
    calls.append(&mut configuration);
    calls.push(
        Call::FramebufferTexture { target: glenum::FRAMEBUFFER, attachment: point, texture, level: 0 },
    );
    assert(calls@ =~= attachment(target, texture, size, mipmaps, pf, point));
    Ok(calls)
}

/// Plans the assembly of a framebuffer of `size` from fresh handles.
///
/// Every color format gets a texture of its own, attached at the color
/// attachment of its position; without color formats the color draw target
/// is disabled. The depth attachment is a texture where `depth_format` names
/// a format, else a renderbuffer. The status of the framebuffer is to be read
/// once these calls have run, and handed to [`new_framebuffer`].
///
/// Fails, with no call planned, where an attachment cannot be created.
pub fn assemble_framebuffer(
    handles: &Handles,
    l: Layering,
    size: Size,
    mipmaps: usize,
    color_formats: &[PixelFormat],
    depth_format: Option<PixelFormat>,
) -> (r: Result<Vec<Call>, FramebufferError>)
    requires
        fitting(*handles, color_formats@, depth_format),
        mipmaps <= i32::MAX,
    ensures
        attachable(l, color_formats@, depth_format) ==> r is Ok && r->Ok_0@ == assembly(
            *handles,
            size,
            mipmaps,
            color_formats@,
            depth_format,
        ),
        !attachable(l, color_formats@, depth_format) ==> r == Err::<Vec<Call>, FramebufferError>(
            FramebufferError::TextureError(TextureError::UnsupportedFormat),
        ),
{
    let target = match to_target(l, size.dim()) {
        Some(target) => target,
        None => {
            return Err(FramebufferError::TextureError(TextureError::UnsupportedFormat));
        },
    };
    let mut calls = vec![
        Call::BindFramebuffer { target: glenum::FRAMEBUFFER, framebuffer: handles.framebuffer },
    ];
    let ghost bound = calls@;
    if color_formats.len() == 0 {
        calls.push(Call::DrawBuffer { buffer: glenum::NONE });
    } else {
        let mut i: usize = 0;
        while i < color_formats.len()
            invariant
                fitting(*handles, color_formats@, depth_format),
                mipmaps <= i32::MAX,
                i <= color_formats@.len(),
                forall|k: int| 0 <= k < i ==> resolve(#[trigger] color_formats@[k]).is_some(),
                i > 0 ==> l == Layering::Flat,
                calls@ == bound + color_attachments(
                    target,
                    handles.textures@,
                    size,
                    mipmaps,
                    color_formats@,
                    i as int,
                ),
            decreases color_formats@.len() - i,
        {
            let point = glenum::COLOR_ATTACHMENT0 + i as u32;
            let mut attached = match attach_texture(
                target,
                handles.textures[i],
                l,
                size,
                mipmaps,
                color_formats[i],
                point,
            ) {
                Ok(attached) => attached,
                Err(e) => {
                    return Err(FramebufferError::TextureError(e));
                },
            };
            calls.append(&mut attached);
            i += 1;
            assert(calls@ =~= bound + color_attachments(
                target,
                handles.textures@,
                size,
                mipmaps,
                color_formats@,
                i as int,
            ));
        }
    }
    assert(l == Layering::Flat ==> calls@ =~= bound + color_part(
        target,
        handles.textures@,
        size,
        mipmaps,
        color_formats@,
    ));
    let ghost colored = calls@;
    match depth_format {
        Some(pf) => {
            let texture = handles.textures[handles.textures.len() - 1];
            let mut attached = match attach_texture(
                target,
                texture,
                l,
                size,
                mipmaps,
                pf,
                glenum::DEPTH_ATTACHMENT,
            ) {
                Ok(attached) => attached,
                Err(e) => {
                    return Err(FramebufferError::TextureError(e));
                },
            };
            calls.append(&mut attached);
        },
        None => {
            if l == Layering::Layered {
                return Err(FramebufferError::TextureError(TextureError::UnsupportedFormat));
            }
            let renderbuffer = match handles.renderbuffer {
                Some(renderbuffer) => renderbuffer,
                None => 0,
            };
            calls.push(Call::BindRenderbuffer { target: glenum::RENDERBUFFER, renderbuffer });
            calls.push(
                Call::RenderbufferStorage {
                    target: glenum::RENDERBUFFER,
                    internal_format: glenum::DEPTH_COMPONENT32F,
                    width: size.width(),
                    height: size.height(),
                },
            );
            calls.push(Call::BindRenderbuffer { target: glenum::RENDERBUFFER, renderbuffer: 0 });
            calls.push(
                Call::FramebufferRenderbuffer {
                    target: glenum::FRAMEBUFFER,
                    attachment: glenum::DEPTH_ATTACHMENT,
                    renderbuffer_target: glenum::RENDERBUFFER,
                    renderbuffer,
                },
            );
        },
    }
    assert(calls@ =~= colored + depth_part(target, *handles, size, mipmaps, depth_format));
    calls.push(Call::BindTexture { target, texture: 0 });
    assert(calls@ =~= assembly(*handles, size, mipmaps, color_formats@, depth_format));
    Ok(calls)
}

/// The color textures of an assembled framebuffer, in attachment order.
pub open spec fn color_textures(handles: Handles, size: Size, colors: int) -> Seq<GLTexture> {
    Seq::new(
        colors as nat,
        |i: int|
            GLTexture {
                handle: handles.textures@[i],
                target: target_of(Layering::Flat, size.dimension()).unwrap(),
            },
    )
}

/// The depth texture of an assembled framebuffer, where it has one.
pub open spec fn depth_texture(
    handles: Handles,
    size: Size,
    depth_format: Option<PixelFormat>,
) -> Option<GLTexture> {
    if depth_format.is_some() {
        Some(
            GLTexture {
                handle: handles.textures@.last(),
                target: target_of(Layering::Flat, size.dimension()).unwrap(),
            },
        )
    } else {
        None
    }
}

/// Concludes the assembly planned by [`assemble_framebuffer`], given the status
/// that the driver reports for the framebuffer.
///
/// A complete framebuffer is returned with its color textures and its depth
/// texture. Any other status is a failure with its reason, and the calls
/// release every object that the assembly was given.
pub fn new_framebuffer(
    status: u32,
    handles: &Handles,
    size: Size,
    color_formats: &[PixelFormat],
    depth_format: Option<PixelFormat>,
) -> (r: (Vec<Call>, Result<(GLFramebuffer, Vec<GLTexture>, Option<GLTexture>), FramebufferError>))
    requires
        fitting(*handles, color_formats@, depth_format),
    ensures
        r.0@ == conclusion(status, *handles, size),
        status == glenum::FRAMEBUFFER_COMPLETE ==> r.1 is Ok && r.1->Ok_0.0 == assembled(
            *handles,
            size,
        ) && r.1->Ok_0.1@ == color_textures(*handles, size, color_formats@.len() as int)
            && r.1->Ok_0.2 == depth_texture(*handles, size, depth_format),
        status != glenum::FRAMEBUFFER_COMPLETE ==> r.1 is Err && r.1->Err_0
            is Incomplete && r.1->Err_0->Incomplete_0@ == status_reason(status),
{
    let target = match to_target(Layering::Flat, size.dim()) {
        Some(target) => target,
        None => 0,
    };
    let framebuffer = GLFramebuffer {
        handle: handles.framebuffer,
        renderbuffer: handles.renderbuffer,
        w: size.width(),
        h: size.height(),
    };
    let mut calls = vec![Call::BindFramebuffer { target: glenum::FRAMEBUFFER, framebuffer: 0 }];
    match get_status(status) {
        Some(incomplete) => {
            let mut released = dispose(handles, size);
            calls.append(&mut released);
            assert(calls@ =~= conclusion(status, *handles, size));
            (calls, Err(FramebufferError::Incomplete(incomplete)))
        },
        None => {
            let mut textures: Vec<GLTexture> = Vec::new();
            let mut i: usize = 0;
            while i < color_formats.len()
                invariant
                    fitting(*handles, color_formats@, depth_format),
                    i <= color_formats@.len(),
                    target == target_of(Layering::Flat, size.dimension()).unwrap(),
                    textures@ == color_textures(*handles, size, i as int),
                decreases color_formats@.len() - i,
            {
                textures.push(GLTexture::new(handles.textures[i], target));
                i += 1;
                assert(textures@ =~= color_textures(*handles, size, i as int));
            }
            let depth = if depth_format.is_some() {
                Some(GLTexture::new(handles.textures[handles.textures.len() - 1], target))
            } else {
                None
            };
            assert(calls@ =~= conclusion(status, *handles, size));
            (calls, Ok((framebuffer, textures, depth)))
        },
    }
}

/// Calls that release everything a framebuffer was to be assembled from, for
/// an assembly that is given up.
pub fn dispose(handles: &Handles, size: Size) -> (calls: Vec<Call>)
    ensures
        calls@ == disposal(*handles, size),
{
    let framebuffer = GLFramebuffer {
        handle: handles.framebuffer,
        renderbuffer: handles.renderbuffer,
        w: size.width(),
        h: size.height(),
    };
    let mut calls: Vec<Call> = Vec::new();
    let mut i: usize = 0;
    while i < handles.textures.len()
        invariant
            i <= handles.textures@.len(),
            calls@ == texture_disposal(handles.textures@, i as int),
        decreases handles.textures@.len() - i,
    {
        calls.push(Call::DeleteTexture { texture: handles.textures[i] });
        i += 1;
        assert(calls@ =~= texture_disposal(handles.textures@, i as int));
    }
    let mut released = free_framebuffer(&framebuffer);
    calls.append(&mut released);
    calls
}

/// Calls that release a framebuffer: its renderbuffer where it has one, then
/// its handle, which the window's framebuffer keeps.
pub fn free_framebuffer(framebuffer: &GLFramebuffer) -> (calls: Vec<Call>)
    ensures
        calls@ == release(*framebuffer),
{
    let mut calls: Vec<Call> = Vec::new();
    if let Some(renderbuffer) = framebuffer.renderbuffer {
        calls.push(Call::DeleteRenderbuffer { renderbuffer });
    }
    if framebuffer.handle != 0 {
        calls.push(Call::DeleteFramebuffer { framebuffer: framebuffer.handle });
    }
    assert(calls@ =~= release(*framebuffer));
    calls
}

/// The window's framebuffer, for a window of `size`.
pub fn default_framebuffer(size: Size) -> (framebuffer: GLFramebuffer)
    ensures
        framebuffer == (GLFramebuffer {
            handle: 0,
            renderbuffer: None,
            w: size.spec_width(),
            h: size.spec_height(),
        }),
{
    GLFramebuffer { handle: 0, renderbuffer: None, w: size.width(), h: size.height() }
}

/// A framebuffer that is found incomplete leaves nothing behind: the calls
/// that conclude its assembly delete every texture made for it, its
/// renderbuffer where it was given one, and the framebuffer.
pub proof fn lemma_incomplete_releases_all(status: u32, handles: Handles, size: Size)
    requires
        status != glenum::FRAMEBUFFER_COMPLETE,
        handles.framebuffer != 0,
    ensures
        forall|i: int|
            0 <= i < handles.textures@.len() ==> conclusion(status, handles, size).contains(
                Call::DeleteTexture { texture: #[trigger] handles.textures@[i] },
            ),
        handles.renderbuffer.is_some() ==> conclusion(status, handles, size).contains(
            Call::DeleteRenderbuffer { renderbuffer: handles.renderbuffer.unwrap() },
        ),
        conclusion(status, handles, size).contains(
            Call::DeleteFramebuffer { framebuffer: handles.framebuffer },
        ),
{
    let calls = conclusion(status, handles, size);
    let n = handles.textures@.len() as int;
    let released = release(assembled(handles, size));
    assert(calls.len() == 1 + n + released.len());
    assert forall|i: int| 0 <= i < n implies calls.contains(
        Call::DeleteTexture { texture: #[trigger] handles.textures@[i] },
    ) by {
        assert(calls[1 + i] == Call::DeleteTexture { texture: handles.textures@[i] });
    }
    if handles.renderbuffer.is_some() {
        assert(calls[1 + n] == Call::DeleteRenderbuffer {
            renderbuffer: handles.renderbuffer.unwrap(),
        });
    }
    assert(calls[calls.len() - 1] == Call::DeleteFramebuffer {
        framebuffer: handles.framebuffer,
    });
}

/// A framebuffer with a depth format and no color formats can be assembled
/// whenever the depth format has a driver encoding. Its assembly disables the
/// color draw target right after binding the framebuffer, and attaches
/// nothing but the depth texture.
pub proof fn lemma_depth_only_assembly(
    handles: Handles,
    size: Size,
    mipmaps: usize,
    depth_format: PixelFormat,
)
    ensures
        attachable(Layering::Flat, Seq::<PixelFormat>::empty(), Some(depth_format)) <==> resolve(
            depth_format,
        ).is_some(),
        assembly(handles, size, mipmaps, Seq::<PixelFormat>::empty(), Some(depth_format)) == seq![
            Call::BindFramebuffer { target: glenum::FRAMEBUFFER, framebuffer: handles.framebuffer },
            Call::DrawBuffer { buffer: glenum::NONE },
        ] + attachment(
            target_of(Layering::Flat, size.dimension()).unwrap(),
            handles.textures@.last(),
            size,
            mipmaps,
            depth_format,
            glenum::DEPTH_ATTACHMENT,
        ) + seq![
            Call::BindTexture {
                target: target_of(Layering::Flat, size.dimension()).unwrap(),
                texture: 0,
            },
        ],
{
    let target = target_of(Layering::Flat, size.dimension()).unwrap();
    assert(assembly(handles, size, mipmaps, Seq::<PixelFormat>::empty(), Some(depth_format))
        =~= seq![
        Call::BindFramebuffer { target: glenum::FRAMEBUFFER, framebuffer: handles.framebuffer },
        Call::DrawBuffer { buffer: glenum::NONE },
    ] + attachment(
        target,
        handles.textures@.last(),
        size,
        mipmaps,
        depth_format,
        glenum::DEPTH_ATTACHMENT,
    ) + seq![Call::BindTexture { target, texture: 0 }]);
}

} // verus!
