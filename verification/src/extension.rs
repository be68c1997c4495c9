use vstd::prelude::*;

verus! {

/// The Token-2022 mint extensions that this program allocates or allows.
/// Each stands for the `ExtensionType` of the same name; `code` is the
/// two-byte type tag Token-2022 writes for it in account data.
#[derive(Clone, Copy, Debug, PartialEq, Eq)]
pub enum MintExtension {
    TransferFeeConfig,
    MintCloseAuthority,
    ConfidentialTransferMint,
    DefaultAccountState,
    PermanentDelegate,
    ConfidentialTransferFeeConfig,
    MetadataPointer,
}

impl MintExtension {
    /// The type tag of the extension in Token-2022 account data.
    pub open spec fn code(self) -> u16 {
        match self {
            MintExtension::TransferFeeConfig => 1,
            MintExtension::MintCloseAuthority => 3,
            MintExtension::ConfidentialTransferMint => 4,
            MintExtension::DefaultAccountState => 6,
            MintExtension::PermanentDelegate => 12,
            MintExtension::ConfidentialTransferFeeConfig => 16,
            MintExtension::MetadataPointer => 18,
        }
    }

    /// Returns the type tag of the extension.
    pub fn type_code(&self) -> (c: u16)
        ensures
            c == self.code(),
    {
        match self {
            MintExtension::TransferFeeConfig => 1,
            MintExtension::MintCloseAuthority => 3,
            MintExtension::ConfidentialTransferMint => 4,
            MintExtension::DefaultAccountState => 6,
            MintExtension::PermanentDelegate => 12,
            MintExtension::ConfidentialTransferFeeConfig => 16,
            MintExtension::MetadataPointer => 18,
        }
    }
}

/// The type tags of the supported extensions, in the order of
/// `SUPPORTED_EXTENSIONS`.
pub open spec fn supported_codes() -> Seq<u16> {
    seq![
        MintExtension::MintCloseAuthority.code(),
        MintExtension::MetadataPointer.code(),
        MintExtension::TransferFeeConfig.code(),
    ]
}

/// Whether an extension type tag is on the allowlist.
pub open spec fn is_supported_code(code: u16) -> bool {
    supported_codes().contains(code)
}

/// Whether every tag in `codes` is on the allowlist.
pub open spec fn all_supported(codes: Seq<u16>) -> bool {
    forall|i: int| 0 <= i < codes.len() ==> is_supported_code(#[trigger] codes[i])
}

/// Whether `code` is the tag of one of `SUPPORTED_EXTENSIONS`.
pub fn supports_extension(code: u16) -> (b: bool)
    ensures
        b == is_supported_code(code),
        b <==> (code == 3 || code == 18 || code == 1),
{
    let supported = crate::constants::SUPPORTED_EXTENSIONS;
    let mut i: usize = 0;
    while i < 3
        invariant
            0 <= i <= 3,
            supported@ == seq![
                MintExtension::MintCloseAuthority,
                MintExtension::MetadataPointer,
                MintExtension::TransferFeeConfig,
            ],
            forall|j: int| 0 <= j < i ==> supported_codes()[j] != code,
        decreases 3 - i,
    {
        if supported[i].type_code() == code {
            assert(supported_codes()[i as int] == code);
            assert(supported_codes()[0] == 3u16 && supported_codes()[1] == 18u16 && supported_codes()[2] == 1u16);
            return true;
        }
        i = i + 1;
    }
    assert forall|j: int| 0 <= j < supported_codes().len() implies supported_codes()[j] != code by {}
    assert(supported_codes()[0] == 3u16 && supported_codes()[1] == 18u16 && supported_codes()[2] == 1u16);
    false
}

/// Checks a mint's extension types against the allowlist: succeeds exactly
/// when every type is supported, and otherwise reports
/// `UnsupportedExtension`.
pub fn check_supported_extensions(codes: &[u16]) -> (r: Result<(), crate::error::MintError>)
    ensures
        r is Ok <==> all_supported(codes@),
        r is Err ==> r->Err_0 == crate::error::MintError::UnsupportedExtension,
{
    let mut i: usize = 0;
    while i < codes.len()
        invariant
            0 <= i <= codes.len(),
            forall|j: int| 0 <= j < i ==> is_supported_code(#[trigger] codes@[j]),
        decreases codes.len() - i,
    {
        if !supports_extension(codes[i]) {
            return Err(crate::error::MintError::UnsupportedExtension);
        }
        i = i + 1;
    }
    Ok(())
}

} // verus!
