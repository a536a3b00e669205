//! The images that the game needs and the table of those that are loaded.

use vstd::prelude::*;
use crate::entity::ImageHandle;

verus! {

/// An image that the game draws with.
#[derive(Clone, Copy, Debug, PartialEq, Eq, Structural)]
pub enum Asset {
    Player,
    Enemy,
}

impl Asset {
    /// The name under which the image is kept.
    pub open spec fn spec_name(self) -> Seq<char> {
        match self {
            Asset::Player => "player"@,
            Asset::Enemy => "enemy"@,
        }
    }

    /// The file from which the host loads the image.
    pub open spec fn spec_file_name(self) -> Seq<char> {
        match self {
            Asset::Player => "player.png"@,
            Asset::Enemy => "enemy.png"@,
        }
    }

    /// The name under which the image is kept: `player` or `enemy`.
    pub fn name(self) -> (name: &'static str)
        ensures
            name@ == self.spec_name(),
    {
        match self {
            Asset::Player => "player",
            Asset::Enemy => "enemy",
        }
    }

    /// The file from which the host loads the image: `player.png` or
    /// `enemy.png`.
    pub fn file_name(self) -> (name: &'static str)
        ensures
            name@ == self.spec_file_name(),
    {
        match self {
            Asset::Player => "player.png",
            Asset::Enemy => "enemy.png",
        }
    }
}

/// The loaded images by asset. Filled once at start-up and only read after.
#[derive(Clone, Copy, Debug)]
pub struct ImageTable {
    player: Option<ImageHandle>,
    enemy: Option<ImageHandle>,
}

impl View for ImageTable {
    type V = Map<Asset, ImageHandle>;

    closed spec fn view(&self) -> Map<Asset, ImageHandle> {
        let with_player = match self.player {
            Some(image) => Map::<Asset, ImageHandle>::empty().insert(Asset::Player, image),
            None => Map::<Asset, ImageHandle>::empty(),
        };
        match self.enemy {
            Some(image) => with_player.insert(Asset::Enemy, image),
            None => with_player,
        }
    }
}

impl ImageTable {
    /// A table with no image in it.
    pub fn new() -> (table: ImageTable)
        ensures
            table@ == Map::<Asset, ImageHandle>::empty(),
    {
        let table = ImageTable { player: None, enemy: None };
        assert(table@ =~= Map::<Asset, ImageHandle>::empty());
        table
    }

    /// Records `image` as the loaded image of `asset`, in place of any
    /// earlier one.
    pub fn insert(&mut self, asset: Asset, image: ImageHandle)
        ensures
            final(self)@ == old(self)@.insert(asset, image),
    {
        match asset {
            Asset::Player => {
                self.player = Some(image);
            },
            Asset::Enemy => {
                self.enemy = Some(image);
            },
        }
        assert(self@ =~= old(self)@.insert(asset, image));
    }

    /// The loaded image of `asset`, if there is one.
    pub fn get(&self, asset: Asset) -> (image: Option<ImageHandle>)
        ensures
            image == if self@.contains_key(asset) {
                Some(self@[asset])
            } else {
                None
            },
    {
        match asset {
            Asset::Player => self.player,
            Asset::Enemy => self.enemy,
        }
    }
}

} // verus!
