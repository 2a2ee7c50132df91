//! The texture map: textures by identifier, each created once and kept for
//! good, with a fallback that is always there.

use vstd::prelude::*;
use vstd::slice::slice_to_vec;
use crate::jpeg::is_lossless_jpeg;
use crate::texture::decode;
use crate::texture::well_sized;
use crate::texture::image_model;
use crate::texture::sprite_spec;
use crate::texture::sprite_model;
use crate::texture::RgbaImage;
use crate::texture::Texture;
use crate::texture::TextureError;
use crate::texture::TextureModel;

verus! {

/// The identifier of the fallback texture: one opaque white texel. A quad
/// that names no texture is drawn with it.
pub const DEFAULT_TEXTURE_ID: &'static str = "1px-white";

/// The texel of the fallback texture.
pub open spec fn default_texel() -> Seq<u8> {
    seq![255u8, 255u8, 255u8, 255u8]
}

/// The fallback texture.
pub open spec fn default_texture_model() -> TextureModel {
    sprite_model(1, 1, default_texel(), None, None, None)
}

/// A texture together with the identifier it is registered under.
pub struct BindableTexture {
    pub id: String,
    pub texture: Texture,
}

/// The slot of `id` among `ids`, if it is there.
pub open spec fn slot_of_spec(ids: Seq<Seq<char>>, id: Seq<char>) -> Option<int> {
    if ids.contains(id) {
        Some(ids.index_of(id))
    } else {
        None
    }
}

/// The identifiers after `id` has been registered: `id` is appended unless
/// it is there already.
pub open spec fn registered_ids(ids: Seq<Seq<char>>, id: Seq<char>) -> Seq<Seq<char>> {
    if ids.contains(id) {
        ids
    } else {
        ids.push(id)
    }
}

/// The textures after `texture` has been registered under `id`: it is
/// appended unless `id` is there already.
pub open spec fn registered_textures(
    ids: Seq<Seq<char>>,
    textures: Seq<TextureModel>,
    id: Seq<char>,
    texture: TextureModel,
) -> Seq<TextureModel> {
    if ids.contains(id) {
        textures
    } else {
        textures.push(texture)
    }
}

/// The slot that a quad's texture name resolves to: the slot of the name, or
/// the slot of the fallback for a quad without a name.
pub open spec fn resolved_slot(ids: Seq<Seq<char>>, texture_name: Option<Seq<char>>) -> Option<
    int,
> {
    match texture_name {
        Some(id) => slot_of_spec(ids, id),
        None => slot_of_spec(ids, DEFAULT_TEXTURE_ID@),
    }
}

/// What holds of the identifiers of every texture map: none occurs twice,
/// and the first is the fallback.
pub open spec fn ids_well_formed(ids: Seq<Seq<char>>) -> bool {
    &&& ids.no_duplicates()
    &&& ids.len() > 0
    &&& ids[0] == DEFAULT_TEXTURE_ID@
}

/// Registering keeps a texture map well formed.
pub proof fn lemma_registered_well_formed(ids: Seq<Seq<char>>, id: Seq<char>)
    requires
        ids_well_formed(ids),
    ensures
        ids_well_formed(registered_ids(ids, id)),
        registered_ids(ids, id).contains(id),
        forall|other: Seq<char>| ids.contains(other) ==> slot_of_spec(registered_ids(ids, id), other)
            == slot_of_spec(ids, other),
{
    let after = registered_ids(ids, id);
    if !ids.contains(id) {
        assert(after[ids.len() as int] == id);
        assert forall|other: Seq<char>| ids.contains(other) implies slot_of_spec(after, other)
            == slot_of_spec(ids, other) by {
            let i = ids.index_of(other);
            assert(after[i] == other);
            let j = after.index_of(other);
            assert(after[j] == other);
        }
    }
}

/// Registering the same identifier a second time changes nothing, whatever
/// texture comes with it, and leaves exactly one entry under the identifier.
pub proof fn lemma_register_idempotent(
    ids: Seq<Seq<char>>,
    textures: Seq<TextureModel>,
    id: Seq<char>,
    first: TextureModel,
    second: TextureModel,
)
    requires
        ids_well_formed(ids),
        ids.len() == textures.len(),
    ensures
        registered_ids(registered_ids(ids, id), id) == registered_ids(ids, id),
        registered_textures(
            registered_ids(ids, id),
            registered_textures(ids, textures, id, first),
            id,
            second,
        ) == registered_textures(ids, textures, id, first),
        forall|i: int, j: int|
            0 <= i < registered_ids(ids, id).len() && 0 <= j < registered_ids(ids, id).len()
                && registered_ids(ids, id)[i] == id && registered_ids(ids, id)[j] == id ==> i == j,
        exists|i: int| 0 <= i < registered_ids(ids, id).len() && registered_ids(ids, id)[i] == id,
{
    lemma_registered_well_formed(ids, id);
}

/// A quad without a texture name always resolves: to slot 0, the fallback.
pub proof fn lemma_fallback_resolves(ids: Seq<Seq<char>>)
    requires
        ids_well_formed(ids),
    ensures
        resolved_slot(ids, None) == Some(0int),
{
    assert(ids[0] == DEFAULT_TEXTURE_ID@);
    assert(ids.contains(DEFAULT_TEXTURE_ID@));
    let i = ids.index_of(DEFAULT_TEXTURE_ID@);
    assert(ids[i] == DEFAULT_TEXTURE_ID@);
}

/// Textures by identifier, in the order in which they were registered.
pub struct TextureMap {
    entries: Vec<BindableTexture>,
}

impl TextureMap {
    /// The identifiers, by slot.
    pub closed spec fn ids(&self) -> Seq<Seq<char>> {
        Seq::new(self.entries@.len(), |i: int| self.entries@[i].id@)
    }

    /// The textures, by slot.
    pub closed spec fn textures(&self) -> Seq<TextureModel> {
        Seq::new(self.entries@.len(), |i: int| self.entries@[i].texture@)
    }

    /// What every texture map satisfies: no identifier occurs twice, and
    /// slot 0 holds the fallback.
    pub open spec fn well_formed(&self) -> bool {
        &&& ids_well_formed(self.ids())
        &&& self.ids().len() == self.textures().len()
        &&& self.textures()[0] == default_texture_model()
    }

    /// Whether `after` and `r` are what registering `candidate` under `id`
    /// makes of `self`. Where `id` is registered already, nothing changes
    /// and `r` is `Ok(false)`, whatever the candidate. Else a texture is
    /// appended under `id` and `r` is `Ok(true)`, or the candidate is an
    /// error, nothing changes, and `r` is that error.
    pub open spec fn registers(
        &self,
        after: &TextureMap,
        id: Seq<char>,
        candidate: Result<TextureModel, TextureError>,
        r: Result<bool, TextureError>,
    ) -> bool {
        if self.ids().contains(id) {
            &&& r == Ok::<bool, TextureError>(false)
            &&& after.ids() == self.ids()
            &&& after.textures() == self.textures()
        } else {
            match candidate {
                Ok(m) => {
                    &&& r == Ok::<bool, TextureError>(true)
                    &&& after.ids() == self.ids().push(id)
                    &&& after.textures() == self.textures().push(m)
                },
                Err(e) => {
                    &&& r == Err::<bool, TextureError>(e)
                    &&& after.ids() == self.ids()
                    &&& after.textures() == self.textures()
                },
            }
        }
    }

    /// A map that holds the fallback texture and nothing else.
    pub fn new() -> (m: TextureMap)
        ensures
            m.well_formed(),
            m.ids() == seq![DEFAULT_TEXTURE_ID@],
            m.textures() == seq![default_texture_model()],
    {
        let mut texel: Vec<u8> = Vec::new();
        texel.push(255u8);
        texel.push(255u8);
        texel.push(255u8);
        texel.push(255u8);
        assert(texel@ =~= default_texel());
        assert(4 * 1nat * 1nat == 4) by (nonlinear_arith);
        let texture = Texture::sprite(1, 1, texel, None, None, None);
        let mut entries: Vec<BindableTexture> = Vec::new();
        entries.push(BindableTexture { id: DEFAULT_TEXTURE_ID.to_owned(), texture });
        let m = TextureMap { entries };
        assert(m.ids() =~= seq![DEFAULT_TEXTURE_ID@]);
        assert(m.textures() =~= seq![default_texture_model()]);
        m
    }

    /// The number of textures.
    pub fn len(&self) -> (n: usize)
        requires
            self.well_formed(),
        ensures
            n == self.ids().len(),
            n == self.textures().len(),
            n > 0,
    {
        self.entries.len()
    }

    /// The texture in the given slot.
    pub fn entry(&self, slot: usize) -> (e: Option<&BindableTexture>)
        requires
            self.well_formed(),
        ensures
            e is Some <==> slot < self.ids().len(),
            e is Some ==> e->0.id@ == self.ids()[slot as int] && e->0.texture@
                == self.textures()[slot as int],
    {
        if slot < self.entries.len() {
            Some(&self.entries[slot])
        } else {
            None
        }
    }

    /// The slot of the texture registered under `id`.
    pub fn slot_of(&self, id: &String) -> (slot: Option<usize>)
        requires
            self.well_formed(),
        ensures
            match slot {
                Some(s) => slot_of_spec(self.ids(), id@) == Some(s as int) && s < self.ids().len()
                    && self.ids()[s as int] == id@,
                None => slot_of_spec(self.ids(), id@) is None,
            },
    {
        let mut i: usize = 0;
        while i < self.entries.len()
            invariant
                i <= self.entries@.len(),
                self.ids().len() == self.entries@.len(),
                self.ids().no_duplicates(),
                forall|k: int| 0 <= k < i ==> self.ids()[k] != id@,
            decreases self.entries@.len() - i,
        {
            assert(self.ids()[i as int] == self.entries@[i as int].id@);
            if self.entries[i].id == *id {
                proof {
                    let j = self.ids().index_of(id@);
                    assert(self.ids().contains(id@));
                    assert(self.ids()[j] == id@);
                }
                return Some(i);
            }
            i += 1;
        }
        None
    }

    /// Whether a texture is registered under `id`.
    pub fn contains(&self, id: &String) -> (b: bool)
        requires
            self.well_formed(),
        ensures
            b == self.ids().contains(id@),
    {
        self.slot_of(id).is_some()
    }

    /// The texture registered under `id`, or `UnknownTexture`.
    pub fn lookup(&self, id: &String) -> (r: Result<&BindableTexture, TextureError>)
        requires
            self.well_formed(),
        ensures
            match slot_of_spec(self.ids(), id@) {
                Some(s) => r is Ok && r->Ok_0.id@ == id@ && r->Ok_0.texture@ == self.textures()[s],
                None => r == Err::<&BindableTexture, TextureError>(TextureError::UnknownTexture),
            },
    {
        match self.slot_of(id) {
            Some(s) => Ok(&self.entries[s]),
            None => Err(TextureError::UnknownTexture),
        }
    }

    /// The slot that a quad with the given texture name is drawn with: the
    /// slot of the name, or the fallback's for a quad without one. Fails
    /// with `UnknownTexture` only for a name that was never registered.
    pub fn resolve(&self, texture_name: &Option<String>) -> (r: Result<usize, TextureError>)
        requires
            self.well_formed(),
        ensures
            match resolved_slot(
                self.ids(),
                match *texture_name {
                    Some(id) => Some(id@),
                    None => None,
                },
            ) {
                Some(s) => r == Ok::<usize, TextureError>(s as usize) && s < self.ids().len(),
                None => r == Err::<usize, TextureError>(TextureError::UnknownTexture),
            },
            texture_name is None ==> r == Ok::<usize, TextureError>(0),
    {
        proof {
            lemma_fallback_resolves(self.ids());
        }
        match texture_name {
            Some(id) => match self.slot_of(id) {
                Some(s) => Ok(s),
                None => Err(TextureError::UnknownTexture),
            },
            None => Ok(0),
        }
    }

    /// Registers `texture` under `id` unless a texture is registered there
    /// already. Returns whether the texture was taken, in which case it is
    /// in the last slot and has yet to be uploaded.
    pub fn insert(&mut self, id: String, texture: Texture) -> (created: bool)
        requires
            old(self).well_formed(),
        ensures
            final(self).well_formed(),
            created == !old(self).ids().contains(id@),
            final(self).ids() == registered_ids(old(self).ids(), id@),
            final(self).textures() == registered_textures(
                old(self).ids(),
                old(self).textures(),
                id@,
                texture@,
            ),
    {
        if self.contains(&id) {
            return false;
        }
        let ghost before_ids = self.ids();
        let ghost before_textures = self.textures();
        proof {
            lemma_registered_well_formed(before_ids, id@);
        }
        let ghost id_model = id@;
        let ghost texture_model = texture@;
        self.entries.push(BindableTexture { id, texture });
        assert(self.ids() =~= before_ids.push(id_model));
        assert(self.textures() =~= before_textures.push(texture_model));
        true
    }

    /// Registers the outcome `decoded` of decoding an image under `id`.
    ///
    /// Where `id` is registered already, nothing changes and the outcome is
    /// not looked at. Else the image becomes a sprite texture labelled `id`,
    /// and no image is a `DecodeError`. Returns whether a texture was
    /// created.
    pub fn register_decoded(&mut self, id: String, decoded: Option<RgbaImage>) -> (r: Result<
        bool,
        TextureError,
    >)
        requires
            old(self).well_formed(),
        ensures
            final(self).well_formed(),
            old(self).registers(
                final(self),
                id@,
                Texture::from_decoded_spec(image_model(decoded), Some(id@)),
                r,
            ),
    {
        if self.contains(&id) {
            return Ok(false);
        }
        match Texture::from_decoded(decoded, Some(id.as_str())) {
            Ok(texture) => {
                self.insert(id, texture);
                Ok(true)
            },
            Err(e) => Err(e),
        }
    }

    /// Registers the image encoded in `bytes` under `id`.
    ///
    /// Where `id` is registered already, nothing changes and the bytes are
    /// not decoded. Else a JPEG stream with a lossless frame is a
    /// `DecodeError`; other bytes are decoded once, and whatever the
    /// decoder makes of them is registered as by
    /// [`TextureMap::register_decoded`]: a `DecodeError` where the decoder
    /// reports an error. Returns whether a texture was created.
    pub fn register(&mut self, id: String, bytes: &[u8]) -> (r: Result<bool, TextureError>)
        requires
            old(self).well_formed(),
        ensures
            final(self).well_formed(),
            exists|decoded: Option<(u32, u32, Seq<u8>)>|
                #[trigger] well_sized(decoded) && old(self).registers(
                    final(self),
                    id@,
                    Texture::from_decoded_spec(decoded, Some(id@)),
                    r,
                ),
            old(self).ids().contains(id@) ==> r == Ok::<bool, TextureError>(false),
            r is Err ==> r->Err_0 == TextureError::DecodeError || r->Err_0
                == TextureError::TooWide,
            !old(self).ids().contains(id@) && is_lossless_jpeg(bytes@) ==> r == Err::<
                bool,
                TextureError,
            >(TextureError::DecodeError),
    {
        if self.contains(&id) {
            let ghost none: Option<(u32, u32, Seq<u8>)> = None;
            assert(well_sized(none) && old(self).registers(
                self,
                id@,
                Texture::from_decoded_spec(none, Some(id@)),
                Ok::<bool, TextureError>(false),
            ));
            return Ok(false);
        }
        let decoded = decode(bytes);
        let ghost model = image_model(decoded);
        let ghost label = id@;
        let r = self.register_decoded(id, decoded);
        assert(well_sized(model) && old(self).registers(
            self,
            label,
            Texture::from_decoded_spec(model, Some(label)),
            r,
        ));
        r
    }

    /// Registers a texture of `width * height` texels given as raw RGBA
    /// bytes under `id`.
    ///
    /// Where `id` is registered already, nothing changes. Else the data must
    /// hold four bytes for every texel. Returns whether a texture was
    /// created.
    pub fn register_raw(&mut self, id: String, width: u32, height: u32, data: &[u8]) -> (r: Result<
        bool,
        TextureError,
    >)
        requires
            old(self).well_formed(),
        ensures
            final(self).well_formed(),
            old(self).registers(
                final(self),
                id@,
                sprite_spec(width, height, data@, None, None, None),
                r,
            ),
    {
        if self.contains(&id) {
            return Ok(false);
        }
        match Texture::from_pixels(width, height, slice_to_vec(data), None, None, None) {
            Ok(texture) => {
                self.insert(id, texture);
                Ok(true)
            },
            Err(e) => Err(e),
        }
    }

    /// Registers a texture of one texel under `id`, for quads of a flat
    /// colour.
    pub fn register_solid(&mut self, id: String, rgba_pixel: &[u8]) -> (r: Result<
        bool,
        TextureError,
    >)
        requires
            old(self).well_formed(),
        ensures
            final(self).well_formed(),
            old(self).registers(
                final(self),
                id@,
                sprite_spec(1, 1, rgba_pixel@, None, None, None),
                r,
            ),
    {
        self.register_raw(id, 1, 1, rgba_pixel)
    }
}

} // verus!
