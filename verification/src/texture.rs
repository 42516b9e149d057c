//! Texture objects.
//!
//! A texture is known by its name and the kind of target it is bound to. A
//! two-dimensional texture takes one image, at level 0, with eight bits per
//! channel. Textures that stack several images are known by their kind only;
//! nothing is uploaded to them here.

use vstd::prelude::*;

verus! {

use crate::driver::{
    calls, Answer, Call, Command, Reply, LINEAR, NEAREST, RGBA, RGBA8, TEXTURE_2D,
    TEXTURE_MAG_FILTER, TEXTURE_MIN_FILTER, UNSIGNED_BYTE,
};
use crate::error::{Error, Failure};
use crate::pixels::{flip_vertical, flipped, flipped_image, lemma_flipped_twice, well_formed, Image, PixelBuffer};

/// A texture object: its name and the kind of target it is bound to.
#[derive(Debug, PartialEq, Eq)]
pub struct Texture {
    texture_type: u32,
    id: u32,
}

/// The mathematical content of a [`Texture`].
pub struct TextureView {
    pub texture_type: u32,
    pub id: u32,
}

impl View for Texture {
    type V = TextureView;

    closed spec fn view(&self) -> TextureView {
        TextureView { texture_type: self.texture_type, id: self.id }
    }
}

/// The calls that bind texture `id` as a two-dimensional target, upload the
/// image to its level 0 with eight bits per channel, and set the filters:
/// nearest for magnification, linear for minification.
pub open spec fn upload(id: u32, image: Image) -> Seq<Call> {
    seq![
        Call::BindTexture { target: TEXTURE_2D, texture: id },
        Call::TexImage2D {
            target: TEXTURE_2D,
            level: 0,
            internal_format: RGBA8,
            width: image.width as i32,
            height: image.height as i32,
            border: 0,
            format: RGBA,
            component: UNSIGNED_BYTE,
            pixels: image.pixels,
        },
        Call::TexParameteri { target: TEXTURE_2D, parameter: TEXTURE_MAG_FILTER, value: NEAREST },
        Call::TexParameteri { target: TEXTURE_2D, parameter: TEXTURE_MIN_FILTER, value: LINEAR },
    ]
}

/// Where the making of a texture stands.
#[derive(Debug, PartialEq, Eq)]
pub enum Load {
    /// A texture object of this kind was requested.
    Creating { texture_type: u32 },
    /// A two-dimensional texture object was requested; `image` goes to it
    /// once it is there.
    Uploading { image: PixelBuffer },
    /// The making is over: the texture, or why there is none.
    Finished(Result<Texture, Error>),
}

/// The mathematical content of a [`Load`].
pub enum LoadView {
    Creating { texture_type: u32 },
    Uploading { image: Image },
    Finished(Result<TextureView, Failure>),
}

impl View for Load {
    type V = LoadView;

    open spec fn view(&self) -> LoadView {
        match *self {
            Load::Creating { texture_type } => LoadView::Creating { texture_type },
            Load::Uploading { image } => LoadView::Uploading { image: image@ },
            Load::Finished(Ok(texture)) => LoadView::Finished(Ok(texture@)),
            Load::Finished(Err(error)) => LoadView::Finished(Err(error@)),
        }
    }
}

/// The state that follows `state` on the driver's answer, and the calls to
/// make next. The zero name ends the making with `AllocationError`; an answer
/// that is no name ends it with `InvalidArgument`. A finished making stays as
/// it is.
pub open spec fn step(state: LoadView, answer: Answer) -> (LoadView, Seq<Call>) {
    match (state, answer) {
        (LoadView::Finished(result), _) => (LoadView::Finished(result), Seq::empty()),
        (_, Answer::Name(id)) => if id == 0 {
            (LoadView::Finished(Err(Failure::AllocationError)), Seq::empty())
        } else {
            match state {
                LoadView::Uploading { image } => (
                    LoadView::Finished(Ok(TextureView { texture_type: TEXTURE_2D, id })),
                    upload(id, image),
                ),
                LoadView::Creating { texture_type } => (
                    LoadView::Finished(Ok(TextureView { texture_type, id })),
                    Seq::empty(),
                ),
                LoadView::Finished(result) => (LoadView::Finished(result), Seq::empty()),
            }
        },
        _ => (LoadView::Finished(Err(Failure::InvalidArgument)), Seq::empty()),
    }
}

/// The commands of [`upload`].
fn upload_commands(id: u32, image: PixelBuffer) -> (batch: Vec<Command>)
    ensures
        calls(batch@) == upload(id, image@),
{
    let ghost content = image@;
    let (width, height, data) = image.into_raw();
    let mut batch: Vec<Command> = Vec::new();
    batch.push(Command::BindTexture { target: TEXTURE_2D, texture: id });
    batch.push(
        Command::TexImage2D {
            target: TEXTURE_2D,
            level: 0,
            internal_format: RGBA8,
            width: width as i32,
            height: height as i32,
            border: 0,
            format: RGBA,
            component: UNSIGNED_BYTE,
            pixels: data,
        },
    );
    batch.push(
        Command::TexParameteri {
            target: TEXTURE_2D,
            parameter: TEXTURE_MAG_FILTER,
            value: NEAREST,
        },
    );
    batch.push(
        Command::TexParameteri { target: TEXTURE_2D, parameter: TEXTURE_MIN_FILTER, value: LINEAR },
    );
    assert(calls(batch@) =~= upload(id, content));
    batch
}

impl Texture {
    #[verifier::type_invariant]
    spec fn named(self) -> bool {
        self.id != 0
    }

    /// Requests a texture object of the given kind: the first state and the
    /// call to make.
    pub fn new(texture_type: u32) -> (start: (Load, Vec<Command>))
        ensures
            start.0@ == (LoadView::Creating { texture_type }),
            calls(start.1@) == seq![Call::GenTextures],
    {
        let mut batch: Vec<Command> = Vec::new();
        batch.push(Command::GenTextures);
        (Load::Creating { texture_type }, batch)
    }

    /// The call that binds this texture to its target.
    pub fn bind(&self) -> (batch: Vec<Command>)
        ensures
            calls(batch@) == seq![
                Call::BindTexture { target: self@.texture_type, texture: self@.id },
            ],
    {
        let mut batch: Vec<Command> = Vec::new();
        batch.push(Command::BindTexture { target: self.texture_type, texture: self.id });
        batch
    }

    /// The calls that bind this texture and set one of its parameters.
    pub fn parameter(&self, parameter: u32, value: u32) -> (batch: Vec<Command>)
        ensures
            calls(batch@) == seq![
                Call::BindTexture { target: self@.texture_type, texture: self@.id },
                Call::TexParameteri { target: self@.texture_type, parameter, value },
            ],
    {
        let mut batch: Vec<Command> = Vec::new();
        batch.push(Command::BindTexture { target: self.texture_type, texture: self.id });
        batch.push(Command::TexParameteri { target: self.texture_type, parameter, value });
        batch
    }

    /// The driver's name of this texture, which is not zero.
    pub fn id(&self) -> (id: u32)
        ensures
            id == self@.id,
            id != 0,
    {
        proof {
            use_type_invariant(self);
        }
        self.id
    }

    /// The kind of target this texture is bound to.
    pub fn texture_type(&self) -> (texture_type: u32)
        ensures
            texture_type == self@.texture_type,
    {
        self.texture_type
    }
}

/// The calls that upload the image to the texture as it is, with the default
/// filters. Only a two-dimensional texture takes an image: for any other the
/// result is `InvalidArgument`.
pub fn set_2d(texture: &Texture, image: PixelBuffer) -> (batch: Result<Vec<Command>, Error>)
    ensures
        match batch {
            Ok(batch) => {
                &&& texture@.texture_type == TEXTURE_2D
                &&& calls(batch@) == upload(texture@.id, image@)
            },
            Err(error) => {
                &&& texture@.texture_type != TEXTURE_2D
                &&& error@ == Failure::InvalidArgument
            },
        },
{
    if texture.texture_type != TEXTURE_2D {
        return Err(Error::InvalidArgument);
    }
    Ok(upload_commands(texture.id, image))
}

/// Starts the making of a two-dimensional texture from what decoding an image
/// file gave: the image, rows from the top, or the decoder's message. A failed
/// decode ends the making at once with `LoadError` and no call is made;
/// otherwise the image is flipped, so that its bottom row comes first, and a
/// texture object is requested for it.
pub fn create_2d_from_file(decoded: Result<PixelBuffer, String>) -> (start: (Load, Vec<Command>))
    ensures
        match decoded {
            Ok(image) => {
                &&& start.0@ == (LoadView::Uploading { image: flipped_image(image@) })
                &&& calls(start.1@) == seq![Call::GenTextures]
            },
            Err(message) => {
                &&& start.0@ == LoadView::Finished(Err(Failure::LoadError(message@)))
                &&& calls(start.1@) == Seq::<Call>::empty()
            },
        },
{
    match decoded {
        Ok(image) => {
            let mut batch: Vec<Command> = Vec::new();
            batch.push(Command::GenTextures);
            (Load::Uploading { image: flip_vertical(image) }, batch)
        },
        Err(message) => (Load::Finished(Err(Error::LoadError(message))), Vec::new()),
    }
}

impl Load {
    /// Takes the driver's answer to the request for a texture object and gives
    /// the next state with the calls to make.
    pub fn advance(self, reply: Reply) -> (next: (Load, Vec<Command>))
        ensures
            (next.0@, calls(next.1@)) == step(self@, reply@),
    {
        match (self, reply) {
            (Load::Finished(result), _) => (Load::Finished(result), Vec::new()),
            (state, Reply::Name(id)) => {
                if id == 0 {
                    (Load::Finished(Err(Error::AllocationError)), Vec::new())
                } else {
                    match state {
                        Load::Uploading { image } => (
                            Load::Finished(Ok(Texture { texture_type: TEXTURE_2D, id })),
                            upload_commands(id, image),
                        ),
                        Load::Creating { texture_type } => (
                            Load::Finished(Ok(Texture { texture_type, id })),
                            Vec::new(),
                        ),
                        Load::Finished(result) => (Load::Finished(result), Vec::new()),
                    }
                }
            },
            _ => (Load::Finished(Err(Error::InvalidArgument)), Vec::new()),
        }
    }
}

/// An image from a file goes up under its own width and height with its rows
/// reversed, and nothing else is changed: reading the texture back and
/// reversing the rows once more gives the decoded image.
pub proof fn lemma_file_upload_round_trip(image: Image, id: u32)
    requires
        well_formed(image),
        id != 0,
    ensures
        step(LoadView::Uploading { image: flipped_image(image) }, Answer::Name(id)) == (
            LoadView::Finished(Ok(TextureView { texture_type: TEXTURE_2D, id })),
            upload(id, flipped_image(image)),
        ),
        upload(id, flipped_image(image))[1] == (Call::TexImage2D {
            target: TEXTURE_2D,
            level: 0,
            internal_format: RGBA8,
            width: image.width as i32,
            height: image.height as i32,
            border: 0,
            format: RGBA,
            component: UNSIGNED_BYTE,
            pixels: flipped(image.width, image.height, image.pixels),
        }),
        flipped(image.width, image.height, flipped(image.width, image.height, image.pixels))
            == image.pixels,
{
    lemma_flipped_twice(image.width, image.height, image.pixels);
}

/// A texture that was made has a name that is not zero, and only a name makes
/// one.
pub proof fn lemma_made_texture_is_named(state: LoadView, answer: Answer, texture: TextureView)
    requires
        !(state is Finished),
        step(state, answer).0 == LoadView::Finished(Ok(texture)),
    ensures
        texture.id != 0,
        answer == Answer::Name(texture.id),
{
}

} // verus!
