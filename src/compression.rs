use vstd::prelude::*;

verus! {

/// Compression format of a stored repository file.
#[derive(Clone, Copy, Debug, PartialEq, Eq, Structural, Hash, PartialOrd, Ord)]
pub enum Compression {
    /// No compression (no extension).
    Uncompressed,
    /// XZ compression (`.xz`).
    Xz,
    /// Gzip compression (`.gz`).
    Gzip,
    /// Bzip2 compression (`.bz2`).
    Bzip2,
    /// LZMA compression (`.lzma`).
    Lzma,
}

/// The filename extension of each format, dot included.
pub open spec fn extension_text(c: Compression) -> Seq<char> {
    match c {
        Compression::Uncompressed => seq![],
        Compression::Xz => seq!['.', 'x', 'z'],
        Compression::Gzip => seq!['.', 'g', 'z'],
        Compression::Bzip2 => seq!['.', 'b', 'z', '2'],
        Compression::Lzma => seq!['.', 'l', 'z', 'm', 'a'],
    }
}

/// The order in which a client prefers the encodings of one object.
pub open spec fn preferred_order() -> Seq<Compression> {
    seq![
        Compression::Xz,
        Compression::Lzma,
        Compression::Gzip,
        Compression::Bzip2,
        Compression::Uncompressed,
    ]
}

impl Compression {
    /// Filename extension for files compressed in this format.
    pub fn extension(&self) -> (r: &'static str)
        ensures
            r@ == extension_text(*self),
    {
        match self {
            Compression::Uncompressed => {
                proof { reveal_strlit(""); }
                ""
            },
            Compression::Xz => {
                proof { reveal_strlit(".xz"); }
                ".xz"
            },
            Compression::Gzip => {
                proof { reveal_strlit(".gz"); }
                ".gz"
            },
            Compression::Bzip2 => {
                proof { reveal_strlit(".bz2"); }
                ".bz2"
            },
            Compression::Lzma => {
                proof { reveal_strlit(".lzma"); }
                ".lzma"
            },
        }
    }

    /// The default retrieval preference order for a client: every format
    /// once, best compression first, no compression last.
    pub fn default_preferred_order() -> (r: Vec<Compression>)
        ensures
            r@ == preferred_order(),
    {
        let r = vec![
            Compression::Xz,
            Compression::Lzma,
            Compression::Gzip,
            Compression::Bzip2,
            Compression::Uncompressed,
        ];
        assert(r@ =~= preferred_order());
        r
    }
}

} // verus!
