//! The reference groups: the 1024-bit group with a subgroup of 160-bit prime
//! order and the 2048-bit group with a subgroup of 224-bit prime order, as
//! RFC 5114 gives them. Each constant is written once as hexadecimal text,
//! which is what the program reads, and once as a number, which is what the
//! contracts speak of; Verus checks that the two agree. Each check takes the
//! text sixteen digits at a time and states the number read so far.

use crate::group::{mod_pow, GroupParameters};
use crate::hexadecimal::{
    hex_range_ok, hex_range_value, hex_value, is_hex_text, lemma_hex_range_extend, lemma_hex_text,
};
use crate::number::BigNat;
use vstd::pervasive::unreached;
use vstd::prelude::*;

verus! {

/// The number that hexadecimal text writes out, for text known to be well formed.
fn read_constant(text: &str) -> (r: BigNat)
    requires
        is_hex_text(text@),
    ensures
        r@ == hex_value(text@),
{
    match BigNat::from_hex(text) {
        Some(n) => n,
        None => unreached(),
    }
}

/// The modulus `p` of the 1024-bit group.
pub open spec fn modulus_1024() -> nat {
    0xB10B8F96A080E01D_DE92DE5EAE5D54EC_52C99FBCFB06A3C6_9A6A9DCA52D23B61_6073E28675A23D18_9838EF1E2EE652C0_13ECB4AEA9061123_24975C3CD49B83BF_ACCBDD7D90C4BD70_98488E9C219A7372_4EFFD6FAE5644738_FAA31A4FF55BCCC0_A151AF5F0DC8B4BD_45BF37DF365C1A65_E68CFDA76D4DA708_DF1FB2BC2E4A4371nat
}

/// Reads the modulus of the 1024-bit group.
pub fn load_modulus_1024() -> (r: BigNat)
    ensures
        r@ == modulus_1024(),
{
    let text = "B10B8F96A080E01DDE92DE5EAE5D54EC52C99FBCFB06A3C69A6A9DCA52D23B616073E28675A23D189838EF1E2EE652C013ECB4AEA906112324975C3CD49B83BFACCBDD7D90C4BD7098488E9C219A73724EFFD6FAE5644738FAA31A4FF55BCCC0A151AF5F0DC8B4BD45BF37DF365C1A65E68CFDA76D4DA708DF1FB2BC2E4A4371";
    proof {
        reveal_strlit("B10B8F96A080E01DDE92DE5EAE5D54EC52C99FBCFB06A3C69A6A9DCA52D23B616073E28675A23D189838EF1E2EE652C013ECB4AEA906112324975C3CD49B83BFACCBDD7D90C4BD7098488E9C219A73724EFFD6FAE5644738FAA31A4FF55BCCC0A151AF5F0DC8B4BD45BF37DF365C1A65E68CFDA76D4DA708DF1FB2BC2E4A4371");
        let t = text@;
        lemma_hex_range_extend(t, 0);
        assert(hex_range_ok(t, 0, 16) && hex_range_value(t, 0, 16) == 0xB10B8F96A080E01D);
        lemma_hex_range_extend(t, 16);
        assert(hex_range_ok(t, 0, 32) && hex_range_value(t, 0, 32) == 0xB10B8F96A080E01DDE92DE5EAE5D54EC);
        lemma_hex_range_extend(t, 32);
        assert(hex_range_ok(t, 0, 48) && hex_range_value(t, 0, 48) == 0xB10B8F96A080E01DDE92DE5EAE5D54EC52C99FBCFB06A3C6);
        lemma_hex_range_extend(t, 48);
        assert(hex_range_ok(t, 0, 64) && hex_range_value(t, 0, 64) == 0xB10B8F96A080E01DDE92DE5EAE5D54EC52C99FBCFB06A3C69A6A9DCA52D23B61);
        lemma_hex_range_extend(t, 64);
        assert(hex_range_ok(t, 0, 80) && hex_range_value(t, 0, 80) == 0xB10B8F96A080E01DDE92DE5EAE5D54EC52C99FBCFB06A3C69A6A9DCA52D23B616073E28675A23D18);
        lemma_hex_range_extend(t, 80);
        assert(hex_range_ok(t, 0, 96) && hex_range_value(t, 0, 96) == 0xB10B8F96A080E01DDE92DE5EAE5D54EC52C99FBCFB06A3C69A6A9DCA52D23B616073E28675A23D189838EF1E2EE652C0);
        lemma_hex_range_extend(t, 96);
        assert(hex_range_ok(t, 0, 112) && hex_range_value(t, 0, 112) == 0xB10B8F96A080E01DDE92DE5EAE5D54EC52C99FBCFB06A3C69A6A9DCA52D23B616073E28675A23D189838EF1E2EE652C013ECB4AEA9061123);
        lemma_hex_range_extend(t, 112);
        assert(hex_range_ok(t, 0, 128) && hex_range_value(t, 0, 128) == 0xB10B8F96A080E01DDE92DE5EAE5D54EC52C99FBCFB06A3C69A6A9DCA52D23B616073E28675A23D189838EF1E2EE652C013ECB4AEA906112324975C3CD49B83BF);
        lemma_hex_range_extend(t, 128);
        assert(hex_range_ok(t, 0, 144) && hex_range_value(t, 0, 144) == 0xB10B8F96A080E01DDE92DE5EAE5D54EC52C99FBCFB06A3C69A6A9DCA52D23B616073E28675A23D189838EF1E2EE652C013ECB4AEA906112324975C3CD49B83BFACCBDD7D90C4BD70);
        lemma_hex_range_extend(t, 144);
        assert(hex_range_ok(t, 0, 160) && hex_range_value(t, 0, 160) == 0xB10B8F96A080E01DDE92DE5EAE5D54EC52C99FBCFB06A3C69A6A9DCA52D23B616073E28675A23D189838EF1E2EE652C013ECB4AEA906112324975C3CD49B83BFACCBDD7D90C4BD7098488E9C219A7372);
        lemma_hex_range_extend(t, 160);
        assert(hex_range_ok(t, 0, 176) && hex_range_value(t, 0, 176) == 0xB10B8F96A080E01DDE92DE5EAE5D54EC52C99FBCFB06A3C69A6A9DCA52D23B616073E28675A23D189838EF1E2EE652C013ECB4AEA906112324975C3CD49B83BFACCBDD7D90C4BD7098488E9C219A73724EFFD6FAE5644738);
        lemma_hex_range_extend(t, 176);
        assert(hex_range_ok(t, 0, 192) && hex_range_value(t, 0, 192) == 0xB10B8F96A080E01DDE92DE5EAE5D54EC52C99FBCFB06A3C69A6A9DCA52D23B616073E28675A23D189838EF1E2EE652C013ECB4AEA906112324975C3CD49B83BFACCBDD7D90C4BD7098488E9C219A73724EFFD6FAE5644738FAA31A4FF55BCCC0);
        lemma_hex_range_extend(t, 192);
        assert(hex_range_ok(t, 0, 208) && hex_range_value(t, 0, 208) == 0xB10B8F96A080E01DDE92DE5EAE5D54EC52C99FBCFB06A3C69A6A9DCA52D23B616073E28675A23D189838EF1E2EE652C013ECB4AEA906112324975C3CD49B83BFACCBDD7D90C4BD7098488E9C219A73724EFFD6FAE5644738FAA31A4FF55BCCC0A151AF5F0DC8B4BD);
        lemma_hex_range_extend(t, 208);
        assert(hex_range_ok(t, 0, 224) && hex_range_value(t, 0, 224) == 0xB10B8F96A080E01DDE92DE5EAE5D54EC52C99FBCFB06A3C69A6A9DCA52D23B616073E28675A23D189838EF1E2EE652C013ECB4AEA906112324975C3CD49B83BFACCBDD7D90C4BD7098488E9C219A73724EFFD6FAE5644738FAA31A4FF55BCCC0A151AF5F0DC8B4BD45BF37DF365C1A65);
        lemma_hex_range_extend(t, 224);
        assert(hex_range_ok(t, 0, 240) && hex_range_value(t, 0, 240) == 0xB10B8F96A080E01DDE92DE5EAE5D54EC52C99FBCFB06A3C69A6A9DCA52D23B616073E28675A23D189838EF1E2EE652C013ECB4AEA906112324975C3CD49B83BFACCBDD7D90C4BD7098488E9C219A73724EFFD6FAE5644738FAA31A4FF55BCCC0A151AF5F0DC8B4BD45BF37DF365C1A65E68CFDA76D4DA708);
        lemma_hex_range_extend(t, 240);
        assert(hex_range_ok(t, 0, 256) && hex_range_value(t, 0, 256) == 0xB10B8F96A080E01DDE92DE5EAE5D54EC52C99FBCFB06A3C69A6A9DCA52D23B616073E28675A23D189838EF1E2EE652C013ECB4AEA906112324975C3CD49B83BFACCBDD7D90C4BD7098488E9C219A73724EFFD6FAE5644738FAA31A4FF55BCCC0A151AF5F0DC8B4BD45BF37DF365C1A65E68CFDA76D4DA708DF1FB2BC2E4A4371);
        lemma_hex_text(t);
    }
    read_constant(text)
}

/// The order `q` of the subgroup of the 1024-bit group.
pub open spec fn order_1024() -> nat {
    0xF518AA87_81A8DF278ABA4E7D_64B7CB9D49462353nat
}

/// Reads the order of the subgroup of the 1024-bit group.
pub fn load_order_1024() -> (r: BigNat)
    ensures
        r@ == order_1024(),
{
    let text = "F518AA8781A8DF278ABA4E7D64B7CB9D49462353";
    proof {
        reveal_strlit("F518AA8781A8DF278ABA4E7D64B7CB9D49462353");
        let t = text@;
        assert(hex_range_ok(t, 0, 8) && hex_range_value(t, 0, 8) == 0xF518AA87) by {
            reveal_with_fuel(hex_range_ok, 9);
            reveal_with_fuel(hex_range_value, 9);
        }
        lemma_hex_range_extend(t, 8);
        assert(hex_range_ok(t, 0, 24) && hex_range_value(t, 0, 24) == 0xF518AA8781A8DF278ABA4E7D);
        lemma_hex_range_extend(t, 24);
        assert(hex_range_ok(t, 0, 40) && hex_range_value(t, 0, 40) == 0xF518AA8781A8DF278ABA4E7D64B7CB9D49462353);
        lemma_hex_text(t);
    }
    read_constant(text)
}

/// The generator `alpha` of the subgroup of the 1024-bit group.
pub open spec fn generator_1024() -> nat {
    0xA4D1CBD5C3FD3412_6765A442EFB99905_F8104DD258AC507F_D6406CFF14266D31_266FEA1E5C41564B_777E690F5504F213_160217B4B01B886A_5E91547F9E2749F4_D7FBD7D3B9A92EE1_909D0D2263F80A76_A6A24C087A091F53_1DBF0A0169B6A28A_D662A4D18E73AFA3_2D779D5918D08BC8_858F4DCEF97C2A24_855E6EEB22B3B2E5nat
}

/// Reads the generator of the subgroup of the 1024-bit group.
pub fn load_generator_1024() -> (r: BigNat)
    ensures
        r@ == generator_1024(),
{
    let text = "A4D1CBD5C3FD34126765A442EFB99905F8104DD258AC507FD6406CFF14266D31266FEA1E5C41564B777E690F5504F213160217B4B01B886A5E91547F9E2749F4D7FBD7D3B9A92EE1909D0D2263F80A76A6A24C087A091F531DBF0A0169B6A28AD662A4D18E73AFA32D779D5918D08BC8858F4DCEF97C2A24855E6EEB22B3B2E5";
    proof {
        reveal_strlit("A4D1CBD5C3FD34126765A442EFB99905F8104DD258AC507FD6406CFF14266D31266FEA1E5C41564B777E690F5504F213160217B4B01B886A5E91547F9E2749F4D7FBD7D3B9A92EE1909D0D2263F80A76A6A24C087A091F531DBF0A0169B6A28AD662A4D18E73AFA32D779D5918D08BC8858F4DCEF97C2A24855E6EEB22B3B2E5");
        let t = text@;
        lemma_hex_range_extend(t, 0);
        assert(hex_range_ok(t, 0, 16) && hex_range_value(t, 0, 16) == 0xA4D1CBD5C3FD3412);
        lemma_hex_range_extend(t, 16);
        assert(hex_range_ok(t, 0, 32) && hex_range_value(t, 0, 32) == 0xA4D1CBD5C3FD34126765A442EFB99905);
        lemma_hex_range_extend(t, 32);
        assert(hex_range_ok(t, 0, 48) && hex_range_value(t, 0, 48) == 0xA4D1CBD5C3FD34126765A442EFB99905F8104DD258AC507F);
        lemma_hex_range_extend(t, 48);
        assert(hex_range_ok(t, 0, 64) && hex_range_value(t, 0, 64) == 0xA4D1CBD5C3FD34126765A442EFB99905F8104DD258AC507FD6406CFF14266D31);
        lemma_hex_range_extend(t, 64);
        assert(hex_range_ok(t, 0, 80) && hex_range_value(t, 0, 80) == 0xA4D1CBD5C3FD34126765A442EFB99905F8104DD258AC507FD6406CFF14266D31266FEA1E5C41564B);
        lemma_hex_range_extend(t, 80);
        assert(hex_range_ok(t, 0, 96) && hex_range_value(t, 0, 96) == 0xA4D1CBD5C3FD34126765A442EFB99905F8104DD258AC507FD6406CFF14266D31266FEA1E5C41564B777E690F5504F213);
        lemma_hex_range_extend(t, 96);
        assert(hex_range_ok(t, 0, 112) && hex_range_value(t, 0, 112) == 0xA4D1CBD5C3FD34126765A442EFB99905F8104DD258AC507FD6406CFF14266D31266FEA1E5C41564B777E690F5504F213160217B4B01B886A);
        lemma_hex_range_extend(t, 112);
        assert(hex_range_ok(t, 0, 128) && hex_range_value(t, 0, 128) == 0xA4D1CBD5C3FD34126765A442EFB99905F8104DD258AC507FD6406CFF14266D31266FEA1E5C41564B777E690F5504F213160217B4B01B886A5E91547F9E2749F4);
        lemma_hex_range_extend(t, 128);
        assert(hex_range_ok(t, 0, 144) && hex_range_value(t, 0, 144) == 0xA4D1CBD5C3FD34126765A442EFB99905F8104DD258AC507FD6406CFF14266D31266FEA1E5C41564B777E690F5504F213160217B4B01B886A5E91547F9E2749F4D7FBD7D3B9A92EE1);
        lemma_hex_range_extend(t, 144);
        assert(hex_range_ok(t, 0, 160) && hex_range_value(t, 0, 160) == 0xA4D1CBD5C3FD34126765A442EFB99905F8104DD258AC507FD6406CFF14266D31266FEA1E5C41564B777E690F5504F213160217B4B01B886A5E91547F9E2749F4D7FBD7D3B9A92EE1909D0D2263F80A76);
        lemma_hex_range_extend(t, 160);
        assert(hex_range_ok(t, 0, 176) && hex_range_value(t, 0, 176) == 0xA4D1CBD5C3FD34126765A442EFB99905F8104DD258AC507FD6406CFF14266D31266FEA1E5C41564B777E690F5504F213160217B4B01B886A5E91547F9E2749F4D7FBD7D3B9A92EE1909D0D2263F80A76A6A24C087A091F53);
        lemma_hex_range_extend(t, 176);
        assert(hex_range_ok(t, 0, 192) && hex_range_value(t, 0, 192) == 0xA4D1CBD5C3FD34126765A442EFB99905F8104DD258AC507FD6406CFF14266D31266FEA1E5C41564B777E690F5504F213160217B4B01B886A5E91547F9E2749F4D7FBD7D3B9A92EE1909D0D2263F80A76A6A24C087A091F531DBF0A0169B6A28A);
        lemma_hex_range_extend(t, 192);
        assert(hex_range_ok(t, 0, 208) && hex_range_value(t, 0, 208) == 0xA4D1CBD5C3FD34126765A442EFB99905F8104DD258AC507FD6406CFF14266D31266FEA1E5C41564B777E690F5504F213160217B4B01B886A5E91547F9E2749F4D7FBD7D3B9A92EE1909D0D2263F80A76A6A24C087A091F531DBF0A0169B6A28AD662A4D18E73AFA3);
        lemma_hex_range_extend(t, 208);
        assert(hex_range_ok(t, 0, 224) && hex_range_value(t, 0, 224) == 0xA4D1CBD5C3FD34126765A442EFB99905F8104DD258AC507FD6406CFF14266D31266FEA1E5C41564B777E690F5504F213160217B4B01B886A5E91547F9E2749F4D7FBD7D3B9A92EE1909D0D2263F80A76A6A24C087A091F531DBF0A0169B6A28AD662A4D18E73AFA32D779D5918D08BC8);
        lemma_hex_range_extend(t, 224);
        assert(hex_range_ok(t, 0, 240) && hex_range_value(t, 0, 240) == 0xA4D1CBD5C3FD34126765A442EFB99905F8104DD258AC507FD6406CFF14266D31266FEA1E5C41564B777E690F5504F213160217B4B01B886A5E91547F9E2749F4D7FBD7D3B9A92EE1909D0D2263F80A76A6A24C087A091F531DBF0A0169B6A28AD662A4D18E73AFA32D779D5918D08BC8858F4DCEF97C2A24);
        lemma_hex_range_extend(t, 240);
        assert(hex_range_ok(t, 0, 256) && hex_range_value(t, 0, 256) == 0xA4D1CBD5C3FD34126765A442EFB99905F8104DD258AC507FD6406CFF14266D31266FEA1E5C41564B777E690F5504F213160217B4B01B886A5E91547F9E2749F4D7FBD7D3B9A92EE1909D0D2263F80A76A6A24C087A091F531DBF0A0169B6A28AD662A4D18E73AFA32D779D5918D08BC8858F4DCEF97C2A24855E6EEB22B3B2E5);
        lemma_hex_text(t);
    }
    read_constant(text)
}

/// The exponent that gives the second generator of the 1024-bit group: `beta` is `alpha` raised to it.
pub open spec fn exponent_1024() -> nat {
    0x266FEA_1E5C41564B777E69nat
}

/// Reads the exponent of the second generator of the 1024-bit group.
pub fn load_exponent_1024() -> (r: BigNat)
    ensures
        r@ == exponent_1024(),
{
    let text = "266FEA1E5C41564B777E69";
    proof {
        reveal_strlit("266FEA1E5C41564B777E69");
        let t = text@;
        assert(hex_range_ok(t, 0, 6) && hex_range_value(t, 0, 6) == 0x266FEA) by {
            reveal_with_fuel(hex_range_ok, 7);
            reveal_with_fuel(hex_range_value, 7);
        }
        lemma_hex_range_extend(t, 6);
        assert(hex_range_ok(t, 0, 22) && hex_range_value(t, 0, 22) == 0x266FEA1E5C41564B777E69);
        lemma_hex_text(t);
    }
    read_constant(text)
}

/// The 1024-bit group, with `beta = alpha ^ exponent_1024() mod p`.
pub open spec fn group_1024() -> GroupParameters {
    GroupParameters {
        p: modulus_1024(),
        q: order_1024(),
        alpha: generator_1024(),
        beta: mod_pow(generator_1024(), exponent_1024(), modulus_1024()),
    }
}

/// The modulus `p` of the 2048-bit group.
pub open spec fn modulus_2048() -> nat {
    0xAD107E1E9123A9D0_D660FAA79559C51F_A20D64E5683B9FD1_B54B1597B61D0A75_E6FA141DF95A56DB_AF9A3C407BA1DF15_EB3D688A309C180E_1DE6B85A1274A0A6_6D3F8152AD6AC212_9037C9EDEFDA4DF8_D91E8FEF55B7394B_7AD5B7D0B6C12207_C9F98D11ED34DBF6_C6BA0B2C8BBC27BE_6A00E0A0B9C49708_B3BF8A3170918836_81286130BC8985DB_1602E714415D9330_278273C7DE31EFDC_7310F7121FD5A074_15987D9ADC0A486D_CDF93ACC44328387_315D75E198C641A4_80CD86A1B9E587E8_BE60E69CC928B2B9_C52172E413042E9B_23F10B0E16E79763_C9B53DCF4BA80A29_E3FB73C16B8E75B9_7EF363E2FFA31F71_CF9DE5384E71B81C_0AC4DFFE0C10E64Fnat
}

/// Reads the modulus of the 2048-bit group.
pub fn load_modulus_2048() -> (r: BigNat)
    ensures
        r@ == modulus_2048(),
{
    let text = "AD107E1E9123A9D0D660FAA79559C51FA20D64E5683B9FD1B54B1597B61D0A75E6FA141DF95A56DBAF9A3C407BA1DF15EB3D688A309C180E1DE6B85A1274A0A66D3F8152AD6AC2129037C9EDEFDA4DF8D91E8FEF55B7394B7AD5B7D0B6C12207C9F98D11ED34DBF6C6BA0B2C8BBC27BE6A00E0A0B9C49708B3BF8A317091883681286130BC8985DB1602E714415D9330278273C7DE31EFDC7310F7121FD5A07415987D9ADC0A486DCDF93ACC44328387315D75E198C641A480CD86A1B9E587E8BE60E69CC928B2B9C52172E413042E9B23F10B0E16E79763C9B53DCF4BA80A29E3FB73C16B8E75B97EF363E2FFA31F71CF9DE5384E71B81C0AC4DFFE0C10E64F";
    proof {
        reveal_strlit("AD107E1E9123A9D0D660FAA79559C51FA20D64E5683B9FD1B54B1597B61D0A75E6FA141DF95A56DBAF9A3C407BA1DF15EB3D688A309C180E1DE6B85A1274A0A66D3F8152AD6AC2129037C9EDEFDA4DF8D91E8FEF55B7394B7AD5B7D0B6C12207C9F98D11ED34DBF6C6BA0B2C8BBC27BE6A00E0A0B9C49708B3BF8A317091883681286130BC8985DB1602E714415D9330278273C7DE31EFDC7310F7121FD5A07415987D9ADC0A486DCDF93ACC44328387315D75E198C641A480CD86A1B9E587E8BE60E69CC928B2B9C52172E413042E9B23F10B0E16E79763C9B53DCF4BA80A29E3FB73C16B8E75B97EF363E2FFA31F71CF9DE5384E71B81C0AC4DFFE0C10E64F");
        let t = text@;
        lemma_hex_range_extend(t, 0);
        assert(hex_range_ok(t, 0, 16) && hex_range_value(t, 0, 16) == 0xAD107E1E9123A9D0);
        lemma_hex_range_extend(t, 16);
        assert(hex_range_ok(t, 0, 32) && hex_range_value(t, 0, 32) == 0xAD107E1E9123A9D0D660FAA79559C51F);
        lemma_hex_range_extend(t, 32);
        assert(hex_range_ok(t, 0, 48) && hex_range_value(t, 0, 48) == 0xAD107E1E9123A9D0D660FAA79559C51FA20D64E5683B9FD1);
        lemma_hex_range_extend(t, 48);
        assert(hex_range_ok(t, 0, 64) && hex_range_value(t, 0, 64) == 0xAD107E1E9123A9D0D660FAA79559C51FA20D64E5683B9FD1B54B1597B61D0A75);
        lemma_hex_range_extend(t, 64);
        assert(hex_range_ok(t, 0, 80) && hex_range_value(t, 0, 80) == 0xAD107E1E9123A9D0D660FAA79559C51FA20D64E5683B9FD1B54B1597B61D0A75E6FA141DF95A56DB);
        lemma_hex_range_extend(t, 80);
        assert(hex_range_ok(t, 0, 96) && hex_range_value(t, 0, 96) == 0xAD107E1E9123A9D0D660FAA79559C51FA20D64E5683B9FD1B54B1597B61D0A75E6FA141DF95A56DBAF9A3C407BA1DF15);
        lemma_hex_range_extend(t, 96);
        assert(hex_range_ok(t, 0, 112) && hex_range_value(t, 0, 112) == 0xAD107E1E9123A9D0D660FAA79559C51FA20D64E5683B9FD1B54B1597B61D0A75E6FA141DF95A56DBAF9A3C407BA1DF15EB3D688A309C180E);
        lemma_hex_range_extend(t, 112);
        assert(hex_range_ok(t, 0, 128) && hex_range_value(t, 0, 128) == 0xAD107E1E9123A9D0D660FAA79559C51FA20D64E5683B9FD1B54B1597B61D0A75E6FA141DF95A56DBAF9A3C407BA1DF15EB3D688A309C180E1DE6B85A1274A0A6);
        lemma_hex_range_extend(t, 128);
        assert(hex_range_ok(t, 0, 144) && hex_range_value(t, 0, 144) == 0xAD107E1E9123A9D0D660FAA79559C51FA20D64E5683B9FD1B54B1597B61D0A75E6FA141DF95A56DBAF9A3C407BA1DF15EB3D688A309C180E1DE6B85A1274A0A66D3F8152AD6AC212);
        lemma_hex_range_extend(t, 144);
        assert(hex_range_ok(t, 0, 160) && hex_range_value(t, 0, 160) == 0xAD107E1E9123A9D0D660FAA79559C51FA20D64E5683B9FD1B54B1597B61D0A75E6FA141DF95A56DBAF9A3C407BA1DF15EB3D688A309C180E1DE6B85A1274A0A66D3F8152AD6AC2129037C9EDEFDA4DF8);
        lemma_hex_range_extend(t, 160);
        assert(hex_range_ok(t, 0, 176) && hex_range_value(t, 0, 176) == 0xAD107E1E9123A9D0D660FAA79559C51FA20D64E5683B9FD1B54B1597B61D0A75E6FA141DF95A56DBAF9A3C407BA1DF15EB3D688A309C180E1DE6B85A1274A0A66D3F8152AD6AC2129037C9EDEFDA4DF8D91E8FEF55B7394B);
        lemma_hex_range_extend(t, 176);
        assert(hex_range_ok(t, 0, 192) && hex_range_value(t, 0, 192) == 0xAD107E1E9123A9D0D660FAA79559C51FA20D64E5683B9FD1B54B1597B61D0A75E6FA141DF95A56DBAF9A3C407BA1DF15EB3D688A309C180E1DE6B85A1274A0A66D3F8152AD6AC2129037C9EDEFDA4DF8D91E8FEF55B7394B7AD5B7D0B6C12207);
        lemma_hex_range_extend(t, 192);
        assert(hex_range_ok(t, 0, 208) && hex_range_value(t, 0, 208) == 0xAD107E1E9123A9D0D660FAA79559C51FA20D64E5683B9FD1B54B1597B61D0A75E6FA141DF95A56DBAF9A3C407BA1DF15EB3D688A309C180E1DE6B85A1274A0A66D3F8152AD6AC2129037C9EDEFDA4DF8D91E8FEF55B7394B7AD5B7D0B6C12207C9F98D11ED34DBF6);
        lemma_hex_range_extend(t, 208);
        assert(hex_range_ok(t, 0, 224) && hex_range_value(t, 0, 224) == 0xAD107E1E9123A9D0D660FAA79559C51FA20D64E5683B9FD1B54B1597B61D0A75E6FA141DF95A56DBAF9A3C407BA1DF15EB3D688A309C180E1DE6B85A1274A0A66D3F8152AD6AC2129037C9EDEFDA4DF8D91E8FEF55B7394B7AD5B7D0B6C12207C9F98D11ED34DBF6C6BA0B2C8BBC27BE);
        lemma_hex_range_extend(t, 224);
        assert(hex_range_ok(t, 0, 240) && hex_range_value(t, 0, 240) == 0xAD107E1E9123A9D0D660FAA79559C51FA20D64E5683B9FD1B54B1597B61D0A75E6FA141DF95A56DBAF9A3C407BA1DF15EB3D688A309C180E1DE6B85A1274A0A66D3F8152AD6AC2129037C9EDEFDA4DF8D91E8FEF55B7394B7AD5B7D0B6C12207C9F98D11ED34DBF6C6BA0B2C8BBC27BE6A00E0A0B9C49708);
        lemma_hex_range_extend(t, 240);
        assert(hex_range_ok(t, 0, 256) && hex_range_value(t, 0, 256) == 0xAD107E1E9123A9D0D660FAA79559C51FA20D64E5683B9FD1B54B1597B61D0A75E6FA141DF95A56DBAF9A3C407BA1DF15EB3D688A309C180E1DE6B85A1274A0A66D3F8152AD6AC2129037C9EDEFDA4DF8D91E8FEF55B7394B7AD5B7D0B6C12207C9F98D11ED34DBF6C6BA0B2C8BBC27BE6A00E0A0B9C49708B3BF8A3170918836);
        lemma_hex_range_extend(t, 256);
        assert(hex_range_ok(t, 0, 272) && hex_range_value(t, 0, 272) == 0xAD107E1E9123A9D0D660FAA79559C51FA20D64E5683B9FD1B54B1597B61D0A75E6FA141DF95A56DBAF9A3C407BA1DF15EB3D688A309C180E1DE6B85A1274A0A66D3F8152AD6AC2129037C9EDEFDA4DF8D91E8FEF55B7394B7AD5B7D0B6C12207C9F98D11ED34DBF6C6BA0B2C8BBC27BE6A00E0A0B9C49708B3BF8A317091883681286130BC8985DB);
        lemma_hex_range_extend(t, 272);
        assert(hex_range_ok(t, 0, 288) && hex_range_value(t, 0, 288) == 0xAD107E1E9123A9D0D660FAA79559C51FA20D64E5683B9FD1B54B1597B61D0A75E6FA141DF95A56DBAF9A3C407BA1DF15EB3D688A309C180E1DE6B85A1274A0A66D3F8152AD6AC2129037C9EDEFDA4DF8D91E8FEF55B7394B7AD5B7D0B6C12207C9F98D11ED34DBF6C6BA0B2C8BBC27BE6A00E0A0B9C49708B3BF8A317091883681286130BC8985DB1602E714415D9330);
        lemma_hex_range_extend(t, 288);
        assert(hex_range_ok(t, 0, 304) && hex_range_value(t, 0, 304) == 0xAD107E1E9123A9D0D660FAA79559C51FA20D64E5683B9FD1B54B1597B61D0A75E6FA141DF95A56DBAF9A3C407BA1DF15EB3D688A309C180E1DE6B85A1274A0A66D3F8152AD6AC2129037C9EDEFDA4DF8D91E8FEF55B7394B7AD5B7D0B6C12207C9F98D11ED34DBF6C6BA0B2C8BBC27BE6A00E0A0B9C49708B3BF8A317091883681286130BC8985DB1602E714415D9330278273C7DE31EFDC);
        lemma_hex_range_extend(t, 304);
        assert(hex_range_ok(t, 0, 320) && hex_range_value(t, 0, 320) == 0xAD107E1E9123A9D0D660FAA79559C51FA20D64E5683B9FD1B54B1597B61D0A75E6FA141DF95A56DBAF9A3C407BA1DF15EB3D688A309C180E1DE6B85A1274A0A66D3F8152AD6AC2129037C9EDEFDA4DF8D91E8FEF55B7394B7AD5B7D0B6C12207C9F98D11ED34DBF6C6BA0B2C8BBC27BE6A00E0A0B9C49708B3BF8A317091883681286130BC8985DB1602E714415D9330278273C7DE31EFDC7310F7121FD5A074);
        lemma_hex_range_extend(t, 320);
        assert(hex_range_ok(t, 0, 336) && hex_range_value(t, 0, 336) == 0xAD107E1E9123A9D0D660FAA79559C51FA20D64E5683B9FD1B54B1597B61D0A75E6FA141DF95A56DBAF9A3C407BA1DF15EB3D688A309C180E1DE6B85A1274A0A66D3F8152AD6AC2129037C9EDEFDA4DF8D91E8FEF55B7394B7AD5B7D0B6C12207C9F98D11ED34DBF6C6BA0B2C8BBC27BE6A00E0A0B9C49708B3BF8A317091883681286130BC8985DB1602E714415D9330278273C7DE31EFDC7310F7121FD5A07415987D9ADC0A486D);
        lemma_hex_range_extend(t, 336);
        assert(hex_range_ok(t, 0, 352) && hex_range_value(t, 0, 352) == 0xAD107E1E9123A9D0D660FAA79559C51FA20D64E5683B9FD1B54B1597B61D0A75E6FA141DF95A56DBAF9A3C407BA1DF15EB3D688A309C180E1DE6B85A1274A0A66D3F8152AD6AC2129037C9EDEFDA4DF8D91E8FEF55B7394B7AD5B7D0B6C12207C9F98D11ED34DBF6C6BA0B2C8BBC27BE6A00E0A0B9C49708B3BF8A317091883681286130BC8985DB1602E714415D9330278273C7DE31EFDC7310F7121FD5A07415987D9ADC0A486DCDF93ACC44328387);
        lemma_hex_range_extend(t, 352);
        assert(hex_range_ok(t, 0, 368) && hex_range_value(t, 0, 368) == 0xAD107E1E9123A9D0D660FAA79559C51FA20D64E5683B9FD1B54B1597B61D0A75E6FA141DF95A56DBAF9A3C407BA1DF15EB3D688A309C180E1DE6B85A1274A0A66D3F8152AD6AC2129037C9EDEFDA4DF8D91E8FEF55B7394B7AD5B7D0B6C12207C9F98D11ED34DBF6C6BA0B2C8BBC27BE6A00E0A0B9C49708B3BF8A317091883681286130BC8985DB1602E714415D9330278273C7DE31EFDC7310F7121FD5A07415987D9ADC0A486DCDF93ACC44328387315D75E198C641A4);
        lemma_hex_range_extend(t, 368);
        assert(hex_range_ok(t, 0, 384) && hex_range_value(t, 0, 384) == 0xAD107E1E9123A9D0D660FAA79559C51FA20D64E5683B9FD1B54B1597B61D0A75E6FA141DF95A56DBAF9A3C407BA1DF15EB3D688A309C180E1DE6B85A1274A0A66D3F8152AD6AC2129037C9EDEFDA4DF8D91E8FEF55B7394B7AD5B7D0B6C12207C9F98D11ED34DBF6C6BA0B2C8BBC27BE6A00E0A0B9C49708B3BF8A317091883681286130BC8985DB1602E714415D9330278273C7DE31EFDC7310F7121FD5A07415987D9ADC0A486DCDF93ACC44328387315D75E198C641A480CD86A1B9E587E8);
        lemma_hex_range_extend(t, 384);
        assert(hex_range_ok(t, 0, 400) && hex_range_value(t, 0, 400) == 0xAD107E1E9123A9D0D660FAA79559C51FA20D64E5683B9FD1B54B1597B61D0A75E6FA141DF95A56DBAF9A3C407BA1DF15EB3D688A309C180E1DE6B85A1274A0A66D3F8152AD6AC2129037C9EDEFDA4DF8D91E8FEF55B7394B7AD5B7D0B6C12207C9F98D11ED34DBF6C6BA0B2C8BBC27BE6A00E0A0B9C49708B3BF8A317091883681286130BC8985DB1602E714415D9330278273C7DE31EFDC7310F7121FD5A07415987D9ADC0A486DCDF93ACC44328387315D75E198C641A480CD86A1B9E587E8BE60E69CC928B2B9);
        lemma_hex_range_extend(t, 400);
        assert(hex_range_ok(t, 0, 416) && hex_range_value(t, 0, 416) == 0xAD107E1E9123A9D0D660FAA79559C51FA20D64E5683B9FD1B54B1597B61D0A75E6FA141DF95A56DBAF9A3C407BA1DF15EB3D688A309C180E1DE6B85A1274A0A66D3F8152AD6AC2129037C9EDEFDA4DF8D91E8FEF55B7394B7AD5B7D0B6C12207C9F98D11ED34DBF6C6BA0B2C8BBC27BE6A00E0A0B9C49708B3BF8A317091883681286130BC8985DB1602E714415D9330278273C7DE31EFDC7310F7121FD5A07415987D9ADC0A486DCDF93ACC44328387315D75E198C641A480CD86A1B9E587E8BE60E69CC928B2B9C52172E413042E9B);
        lemma_hex_range_extend(t, 416);
        assert(hex_range_ok(t, 0, 432) && hex_range_value(t, 0, 432) == 0xAD107E1E9123A9D0D660FAA79559C51FA20D64E5683B9FD1B54B1597B61D0A75E6FA141DF95A56DBAF9A3C407BA1DF15EB3D688A309C180E1DE6B85A1274A0A66D3F8152AD6AC2129037C9EDEFDA4DF8D91E8FEF55B7394B7AD5B7D0B6C12207C9F98D11ED34DBF6C6BA0B2C8BBC27BE6A00E0A0B9C49708B3BF8A317091883681286130BC8985DB1602E714415D9330278273C7DE31EFDC7310F7121FD5A07415987D9ADC0A486DCDF93ACC44328387315D75E198C641A480CD86A1B9E587E8BE60E69CC928B2B9C52172E413042E9B23F10B0E16E79763);
        lemma_hex_range_extend(t, 432);
        assert(hex_range_ok(t, 0, 448) && hex_range_value(t, 0, 448) == 0xAD107E1E9123A9D0D660FAA79559C51FA20D64E5683B9FD1B54B1597B61D0A75E6FA141DF95A56DBAF9A3C407BA1DF15EB3D688A309C180E1DE6B85A1274A0A66D3F8152AD6AC2129037C9EDEFDA4DF8D91E8FEF55B7394B7AD5B7D0B6C12207C9F98D11ED34DBF6C6BA0B2C8BBC27BE6A00E0A0B9C49708B3BF8A317091883681286130BC8985DB1602E714415D9330278273C7DE31EFDC7310F7121FD5A07415987D9ADC0A486DCDF93ACC44328387315D75E198C641A480CD86A1B9E587E8BE60E69CC928B2B9C52172E413042E9B23F10B0E16E79763C9B53DCF4BA80A29);
        lemma_hex_range_extend(t, 448);
        assert(hex_range_ok(t, 0, 464) && hex_range_value(t, 0, 464) == 0xAD107E1E9123A9D0D660FAA79559C51FA20D64E5683B9FD1B54B1597B61D0A75E6FA141DF95A56DBAF9A3C407BA1DF15EB3D688A309C180E1DE6B85A1274A0A66D3F8152AD6AC2129037C9EDEFDA4DF8D91E8FEF55B7394B7AD5B7D0B6C12207C9F98D11ED34DBF6C6BA0B2C8BBC27BE6A00E0A0B9C49708B3BF8A317091883681286130BC8985DB1602E714415D9330278273C7DE31EFDC7310F7121FD5A07415987D9ADC0A486DCDF93ACC44328387315D75E198C641A480CD86A1B9E587E8BE60E69CC928B2B9C52172E413042E9B23F10B0E16E79763C9B53DCF4BA80A29E3FB73C16B8E75B9);
        lemma_hex_range_extend(t, 464);
        assert(hex_range_ok(t, 0, 480) && hex_range_value(t, 0, 480) == 0xAD107E1E9123A9D0D660FAA79559C51FA20D64E5683B9FD1B54B1597B61D0A75E6FA141DF95A56DBAF9A3C407BA1DF15EB3D688A309C180E1DE6B85A1274A0A66D3F8152AD6AC2129037C9EDEFDA4DF8D91E8FEF55B7394B7AD5B7D0B6C12207C9F98D11ED34DBF6C6BA0B2C8BBC27BE6A00E0A0B9C49708B3BF8A317091883681286130BC8985DB1602E714415D9330278273C7DE31EFDC7310F7121FD5A07415987D9ADC0A486DCDF93ACC44328387315D75E198C641A480CD86A1B9E587E8BE60E69CC928B2B9C52172E413042E9B23F10B0E16E79763C9B53DCF4BA80A29E3FB73C16B8E75B97EF363E2FFA31F71);
        lemma_hex_range_extend(t, 480);
        assert(hex_range_ok(t, 0, 496) && hex_range_value(t, 0, 496) == 0xAD107E1E9123A9D0D660FAA79559C51FA20D64E5683B9FD1B54B1597B61D0A75E6FA141DF95A56DBAF9A3C407BA1DF15EB3D688A309C180E1DE6B85A1274A0A66D3F8152AD6AC2129037C9EDEFDA4DF8D91E8FEF55B7394B7AD5B7D0B6C12207C9F98D11ED34DBF6C6BA0B2C8BBC27BE6A00E0A0B9C49708B3BF8A317091883681286130BC8985DB1602E714415D9330278273C7DE31EFDC7310F7121FD5A07415987D9ADC0A486DCDF93ACC44328387315D75E198C641A480CD86A1B9E587E8BE60E69CC928B2B9C52172E413042E9B23F10B0E16E79763C9B53DCF4BA80A29E3FB73C16B8E75B97EF363E2FFA31F71CF9DE5384E71B81C);
        lemma_hex_range_extend(t, 496);
        assert(hex_range_ok(t, 0, 512) && hex_range_value(t, 0, 512) == 0xAD107E1E9123A9D0D660FAA79559C51FA20D64E5683B9FD1B54B1597B61D0A75E6FA141DF95A56DBAF9A3C407BA1DF15EB3D688A309C180E1DE6B85A1274A0A66D3F8152AD6AC2129037C9EDEFDA4DF8D91E8FEF55B7394B7AD5B7D0B6C12207C9F98D11ED34DBF6C6BA0B2C8BBC27BE6A00E0A0B9C49708B3BF8A317091883681286130BC8985DB1602E714415D9330278273C7DE31EFDC7310F7121FD5A07415987D9ADC0A486DCDF93ACC44328387315D75E198C641A480CD86A1B9E587E8BE60E69CC928B2B9C52172E413042E9B23F10B0E16E79763C9B53DCF4BA80A29E3FB73C16B8E75B97EF363E2FFA31F71CF9DE5384E71B81C0AC4DFFE0C10E64F);
        lemma_hex_text(t);
    }
    read_constant(text)
}

/// The order `q` of the subgroup of the 2048-bit group.
pub open spec fn order_2048() -> nat {
    0x801C0D34_C58D93FE99717710_1F80535A4738CEBC_BF389A99B36371EBnat
}

/// Reads the order of the subgroup of the 2048-bit group.
pub fn load_order_2048() -> (r: BigNat)
    ensures
        r@ == order_2048(),
{
    let text = "801C0D34C58D93FE997177101F80535A4738CEBCBF389A99B36371EB";
    proof {
        reveal_strlit("801C0D34C58D93FE997177101F80535A4738CEBCBF389A99B36371EB");
        let t = text@;
        assert(hex_range_ok(t, 0, 8) && hex_range_value(t, 0, 8) == 0x801C0D34) by {
            reveal_with_fuel(hex_range_ok, 9);
            reveal_with_fuel(hex_range_value, 9);
        }
        lemma_hex_range_extend(t, 8);
        assert(hex_range_ok(t, 0, 24) && hex_range_value(t, 0, 24) == 0x801C0D34C58D93FE99717710);
        lemma_hex_range_extend(t, 24);
        assert(hex_range_ok(t, 0, 40) && hex_range_value(t, 0, 40) == 0x801C0D34C58D93FE997177101F80535A4738CEBC);
        lemma_hex_range_extend(t, 40);
        assert(hex_range_ok(t, 0, 56) && hex_range_value(t, 0, 56) == 0x801C0D34C58D93FE997177101F80535A4738CEBCBF389A99B36371EB);
        lemma_hex_text(t);
    }
    read_constant(text)
}

/// The generator `alpha` of the subgroup of the 2048-bit group.
pub open spec fn generator_2048() -> nat {
    0xAC4032EF4F2D9AE3_9DF30B5C8FFDAC50_6CDEBE7B89998CAF_74866A08CFE4FFE3_A6824A4E10B9A6F0_DD921F01A70C4AFA_AB739D7700C29F52_C57DB17C620A8652_BE5E9001A8D66AD7_C17669101999024A_F4D027275AC1348B_B8A762D0521BC98A_E247150422EA1ED4_09939D54DA7460CD_B5F6C6B250717CBE_F180EB34118E98D1_19529A45D6F83456_6E3025E316A330EF_BB77A86F0C1AB15B_051AE3D428C8F8AC_B70A8137150B8EEB_10E183EDD19963DD_D9E263E4770589EF_6AA21E7F5F2FF381_B539CCE3409D13CD_566AFBB48D6C0191_81E1BCFE94B30269_EDFE72FE9B6AA4BD_7B5A0F1C71CFFF4C_19C418E1F6EC0179_81BC087F2A7065B3_84B890D3191F2BFAnat
}

/// Reads the generator of the subgroup of the 2048-bit group.
pub fn load_generator_2048() -> (r: BigNat)
    ensures
        r@ == generator_2048(),
{
    let text = "AC4032EF4F2D9AE39DF30B5C8FFDAC506CDEBE7B89998CAF74866A08CFE4FFE3A6824A4E10B9A6F0DD921F01A70C4AFAAB739D7700C29F52C57DB17C620A8652BE5E9001A8D66AD7C17669101999024AF4D027275AC1348BB8A762D0521BC98AE247150422EA1ED409939D54DA7460CDB5F6C6B250717CBEF180EB34118E98D119529A45D6F834566E3025E316A330EFBB77A86F0C1AB15B051AE3D428C8F8ACB70A8137150B8EEB10E183EDD19963DDD9E263E4770589EF6AA21E7F5F2FF381B539CCE3409D13CD566AFBB48D6C019181E1BCFE94B30269EDFE72FE9B6AA4BD7B5A0F1C71CFFF4C19C418E1F6EC017981BC087F2A7065B384B890D3191F2BFA";
    proof {
        reveal_strlit("AC4032EF4F2D9AE39DF30B5C8FFDAC506CDEBE7B89998CAF74866A08CFE4FFE3A6824A4E10B9A6F0DD921F01A70C4AFAAB739D7700C29F52C57DB17C620A8652BE5E9001A8D66AD7C17669101999024AF4D027275AC1348BB8A762D0521BC98AE247150422EA1ED409939D54DA7460CDB5F6C6B250717CBEF180EB34118E98D119529A45D6F834566E3025E316A330EFBB77A86F0C1AB15B051AE3D428C8F8ACB70A8137150B8EEB10E183EDD19963DDD9E263E4770589EF6AA21E7F5F2FF381B539CCE3409D13CD566AFBB48D6C019181E1BCFE94B30269EDFE72FE9B6AA4BD7B5A0F1C71CFFF4C19C418E1F6EC017981BC087F2A7065B384B890D3191F2BFA");
        let t = text@;
        lemma_hex_range_extend(t, 0);
        assert(hex_range_ok(t, 0, 16) && hex_range_value(t, 0, 16) == 0xAC4032EF4F2D9AE3);
        lemma_hex_range_extend(t, 16);
        assert(hex_range_ok(t, 0, 32) && hex_range_value(t, 0, 32) == 0xAC4032EF4F2D9AE39DF30B5C8FFDAC50);
        lemma_hex_range_extend(t, 32);
        assert(hex_range_ok(t, 0, 48) && hex_range_value(t, 0, 48) == 0xAC4032EF4F2D9AE39DF30B5C8FFDAC506CDEBE7B89998CAF);
        lemma_hex_range_extend(t, 48);
        assert(hex_range_ok(t, 0, 64) && hex_range_value(t, 0, 64) == 0xAC4032EF4F2D9AE39DF30B5C8FFDAC506CDEBE7B89998CAF74866A08CFE4FFE3);
        lemma_hex_range_extend(t, 64);
        assert(hex_range_ok(t, 0, 80) && hex_range_value(t, 0, 80) == 0xAC4032EF4F2D9AE39DF30B5C8FFDAC506CDEBE7B89998CAF74866A08CFE4FFE3A6824A4E10B9A6F0);
        lemma_hex_range_extend(t, 80);
        assert(hex_range_ok(t, 0, 96) && hex_range_value(t, 0, 96) == 0xAC4032EF4F2D9AE39DF30B5C8FFDAC506CDEBE7B89998CAF74866A08CFE4FFE3A6824A4E10B9A6F0DD921F01A70C4AFA);
        lemma_hex_range_extend(t, 96);
        assert(hex_range_ok(t, 0, 112) && hex_range_value(t, 0, 112) == 0xAC4032EF4F2D9AE39DF30B5C8FFDAC506CDEBE7B89998CAF74866A08CFE4FFE3A6824A4E10B9A6F0DD921F01A70C4AFAAB739D7700C29F52);
        lemma_hex_range_extend(t, 112);
        assert(hex_range_ok(t, 0, 128) && hex_range_value(t, 0, 128) == 0xAC4032EF4F2D9AE39DF30B5C8FFDAC506CDEBE7B89998CAF74866A08CFE4FFE3A6824A4E10B9A6F0DD921F01A70C4AFAAB739D7700C29F52C57DB17C620A8652);
        lemma_hex_range_extend(t, 128);
        assert(hex_range_ok(t, 0, 144) && hex_range_value(t, 0, 144) == 0xAC4032EF4F2D9AE39DF30B5C8FFDAC506CDEBE7B89998CAF74866A08CFE4FFE3A6824A4E10B9A6F0DD921F01A70C4AFAAB739D7700C29F52C57DB17C620A8652BE5E9001A8D66AD7);
        lemma_hex_range_extend(t, 144);
        assert(hex_range_ok(t, 0, 160) && hex_range_value(t, 0, 160) == 0xAC4032EF4F2D9AE39DF30B5C8FFDAC506CDEBE7B89998CAF74866A08CFE4FFE3A6824A4E10B9A6F0DD921F01A70C4AFAAB739D7700C29F52C57DB17C620A8652BE5E9001A8D66AD7C17669101999024A);
        lemma_hex_range_extend(t, 160);
        assert(hex_range_ok(t, 0, 176) && hex_range_value(t, 0, 176) == 0xAC4032EF4F2D9AE39DF30B5C8FFDAC506CDEBE7B89998CAF74866A08CFE4FFE3A6824A4E10B9A6F0DD921F01A70C4AFAAB739D7700C29F52C57DB17C620A8652BE5E9001A8D66AD7C17669101999024AF4D027275AC1348B);
        lemma_hex_range_extend(t, 176);
        assert(hex_range_ok(t, 0, 192) && hex_range_value(t, 0, 192) == 0xAC4032EF4F2D9AE39DF30B5C8FFDAC506CDEBE7B89998CAF74866A08CFE4FFE3A6824A4E10B9A6F0DD921F01A70C4AFAAB739D7700C29F52C57DB17C620A8652BE5E9001A8D66AD7C17669101999024AF4D027275AC1348BB8A762D0521BC98A);
        lemma_hex_range_extend(t, 192);
        assert(hex_range_ok(t, 0, 208) && hex_range_value(t, 0, 208) == 0xAC4032EF4F2D9AE39DF30B5C8FFDAC506CDEBE7B89998CAF74866A08CFE4FFE3A6824A4E10B9A6F0DD921F01A70C4AFAAB739D7700C29F52C57DB17C620A8652BE5E9001A8D66AD7C17669101999024AF4D027275AC1348BB8A762D0521BC98AE247150422EA1ED4);
        lemma_hex_range_extend(t, 208);
        assert(hex_range_ok(t, 0, 224) && hex_range_value(t, 0, 224) == 0xAC4032EF4F2D9AE39DF30B5C8FFDAC506CDEBE7B89998CAF74866A08CFE4FFE3A6824A4E10B9A6F0DD921F01A70C4AFAAB739D7700C29F52C57DB17C620A8652BE5E9001A8D66AD7C17669101999024AF4D027275AC1348BB8A762D0521BC98AE247150422EA1ED409939D54DA7460CD);
        lemma_hex_range_extend(t, 224);
        assert(hex_range_ok(t, 0, 240) && hex_range_value(t, 0, 240) == 0xAC4032EF4F2D9AE39DF30B5C8FFDAC506CDEBE7B89998CAF74866A08CFE4FFE3A6824A4E10B9A6F0DD921F01A70C4AFAAB739D7700C29F52C57DB17C620A8652BE5E9001A8D66AD7C17669101999024AF4D027275AC1348BB8A762D0521BC98AE247150422EA1ED409939D54DA7460CDB5F6C6B250717CBE);
        lemma_hex_range_extend(t, 240);
        assert(hex_range_ok(t, 0, 256) && hex_range_value(t, 0, 256) == 0xAC4032EF4F2D9AE39DF30B5C8FFDAC506CDEBE7B89998CAF74866A08CFE4FFE3A6824A4E10B9A6F0DD921F01A70C4AFAAB739D7700C29F52C57DB17C620A8652BE5E9001A8D66AD7C17669101999024AF4D027275AC1348BB8A762D0521BC98AE247150422EA1ED409939D54DA7460CDB5F6C6B250717CBEF180EB34118E98D1);
        lemma_hex_range_extend(t, 256);
        assert(hex_range_ok(t, 0, 272) && hex_range_value(t, 0, 272) == 0xAC4032EF4F2D9AE39DF30B5C8FFDAC506CDEBE7B89998CAF74866A08CFE4FFE3A6824A4E10B9A6F0DD921F01A70C4AFAAB739D7700C29F52C57DB17C620A8652BE5E9001A8D66AD7C17669101999024AF4D027275AC1348BB8A762D0521BC98AE247150422EA1ED409939D54DA7460CDB5F6C6B250717CBEF180EB34118E98D119529A45D6F83456);
        lemma_hex_range_extend(t, 272);
        assert(hex_range_ok(t, 0, 288) && hex_range_value(t, 0, 288) == 0xAC4032EF4F2D9AE39DF30B5C8FFDAC506CDEBE7B89998CAF74866A08CFE4FFE3A6824A4E10B9A6F0DD921F01A70C4AFAAB739D7700C29F52C57DB17C620A8652BE5E9001A8D66AD7C17669101999024AF4D027275AC1348BB8A762D0521BC98AE247150422EA1ED409939D54DA7460CDB5F6C6B250717CBEF180EB34118E98D119529A45D6F834566E3025E316A330EF);
        lemma_hex_range_extend(t, 288);
        assert(hex_range_ok(t, 0, 304) && hex_range_value(t, 0, 304) == 0xAC4032EF4F2D9AE39DF30B5C8FFDAC506CDEBE7B89998CAF74866A08CFE4FFE3A6824A4E10B9A6F0DD921F01A70C4AFAAB739D7700C29F52C57DB17C620A8652BE5E9001A8D66AD7C17669101999024AF4D027275AC1348BB8A762D0521BC98AE247150422EA1ED409939D54DA7460CDB5F6C6B250717CBEF180EB34118E98D119529A45D6F834566E3025E316A330EFBB77A86F0C1AB15B);
        lemma_hex_range_extend(t, 304);
        assert(hex_range_ok(t, 0, 320) && hex_range_value(t, 0, 320) == 0xAC4032EF4F2D9AE39DF30B5C8FFDAC506CDEBE7B89998CAF74866A08CFE4FFE3A6824A4E10B9A6F0DD921F01A70C4AFAAB739D7700C29F52C57DB17C620A8652BE5E9001A8D66AD7C17669101999024AF4D027275AC1348BB8A762D0521BC98AE247150422EA1ED409939D54DA7460CDB5F6C6B250717CBEF180EB34118E98D119529A45D6F834566E3025E316A330EFBB77A86F0C1AB15B051AE3D428C8F8AC);
        lemma_hex_range_extend(t, 320);
        assert(hex_range_ok(t, 0, 336) && hex_range_value(t, 0, 336) == 0xAC4032EF4F2D9AE39DF30B5C8FFDAC506CDEBE7B89998CAF74866A08CFE4FFE3A6824A4E10B9A6F0DD921F01A70C4AFAAB739D7700C29F52C57DB17C620A8652BE5E9001A8D66AD7C17669101999024AF4D027275AC1348BB8A762D0521BC98AE247150422EA1ED409939D54DA7460CDB5F6C6B250717CBEF180EB34118E98D119529A45D6F834566E3025E316A330EFBB77A86F0C1AB15B051AE3D428C8F8ACB70A8137150B8EEB);
        lemma_hex_range_extend(t, 336);
        assert(hex_range_ok(t, 0, 352) && hex_range_value(t, 0, 352) == 0xAC4032EF4F2D9AE39DF30B5C8FFDAC506CDEBE7B89998CAF74866A08CFE4FFE3A6824A4E10B9A6F0DD921F01A70C4AFAAB739D7700C29F52C57DB17C620A8652BE5E9001A8D66AD7C17669101999024AF4D027275AC1348BB8A762D0521BC98AE247150422EA1ED409939D54DA7460CDB5F6C6B250717CBEF180EB34118E98D119529A45D6F834566E3025E316A330EFBB77A86F0C1AB15B051AE3D428C8F8ACB70A8137150B8EEB10E183EDD19963DD);
        lemma_hex_range_extend(t, 352);
        assert(hex_range_ok(t, 0, 368) && hex_range_value(t, 0, 368) == 0xAC4032EF4F2D9AE39DF30B5C8FFDAC506CDEBE7B89998CAF74866A08CFE4FFE3A6824A4E10B9A6F0DD921F01A70C4AFAAB739D7700C29F52C57DB17C620A8652BE5E9001A8D66AD7C17669101999024AF4D027275AC1348BB8A762D0521BC98AE247150422EA1ED409939D54DA7460CDB5F6C6B250717CBEF180EB34118E98D119529A45D6F834566E3025E316A330EFBB77A86F0C1AB15B051AE3D428C8F8ACB70A8137150B8EEB10E183EDD19963DDD9E263E4770589EF);
        lemma_hex_range_extend(t, 368);
        assert(hex_range_ok(t, 0, 384) && hex_range_value(t, 0, 384) == 0xAC4032EF4F2D9AE39DF30B5C8FFDAC506CDEBE7B89998CAF74866A08CFE4FFE3A6824A4E10B9A6F0DD921F01A70C4AFAAB739D7700C29F52C57DB17C620A8652BE5E9001A8D66AD7C17669101999024AF4D027275AC1348BB8A762D0521BC98AE247150422EA1ED409939D54DA7460CDB5F6C6B250717CBEF180EB34118E98D119529A45D6F834566E3025E316A330EFBB77A86F0C1AB15B051AE3D428C8F8ACB70A8137150B8EEB10E183EDD19963DDD9E263E4770589EF6AA21E7F5F2FF381);
        lemma_hex_range_extend(t, 384);
        assert(hex_range_ok(t, 0, 400) && hex_range_value(t, 0, 400) == 0xAC4032EF4F2D9AE39DF30B5C8FFDAC506CDEBE7B89998CAF74866A08CFE4FFE3A6824A4E10B9A6F0DD921F01A70C4AFAAB739D7700C29F52C57DB17C620A8652BE5E9001A8D66AD7C17669101999024AF4D027275AC1348BB8A762D0521BC98AE247150422EA1ED409939D54DA7460CDB5F6C6B250717CBEF180EB34118E98D119529A45D6F834566E3025E316A330EFBB77A86F0C1AB15B051AE3D428C8F8ACB70A8137150B8EEB10E183EDD19963DDD9E263E4770589EF6AA21E7F5F2FF381B539CCE3409D13CD);
        lemma_hex_range_extend(t, 400);
        assert(hex_range_ok(t, 0, 416) && hex_range_value(t, 0, 416) == 0xAC4032EF4F2D9AE39DF30B5C8FFDAC506CDEBE7B89998CAF74866A08CFE4FFE3A6824A4E10B9A6F0DD921F01A70C4AFAAB739D7700C29F52C57DB17C620A8652BE5E9001A8D66AD7C17669101999024AF4D027275AC1348BB8A762D0521BC98AE247150422EA1ED409939D54DA7460CDB5F6C6B250717CBEF180EB34118E98D119529A45D6F834566E3025E316A330EFBB77A86F0C1AB15B051AE3D428C8F8ACB70A8137150B8EEB10E183EDD19963DDD9E263E4770589EF6AA21E7F5F2FF381B539CCE3409D13CD566AFBB48D6C0191);
        lemma_hex_range_extend(t, 416);
        assert(hex_range_ok(t, 0, 432) && hex_range_value(t, 0, 432) == 0xAC4032EF4F2D9AE39DF30B5C8FFDAC506CDEBE7B89998CAF74866A08CFE4FFE3A6824A4E10B9A6F0DD921F01A70C4AFAAB739D7700C29F52C57DB17C620A8652BE5E9001A8D66AD7C17669101999024AF4D027275AC1348BB8A762D0521BC98AE247150422EA1ED409939D54DA7460CDB5F6C6B250717CBEF180EB34118E98D119529A45D6F834566E3025E316A330EFBB77A86F0C1AB15B051AE3D428C8F8ACB70A8137150B8EEB10E183EDD19963DDD9E263E4770589EF6AA21E7F5F2FF381B539CCE3409D13CD566AFBB48D6C019181E1BCFE94B30269);
        lemma_hex_range_extend(t, 432);
        assert(hex_range_ok(t, 0, 448) && hex_range_value(t, 0, 448) == 0xAC4032EF4F2D9AE39DF30B5C8FFDAC506CDEBE7B89998CAF74866A08CFE4FFE3A6824A4E10B9A6F0DD921F01A70C4AFAAB739D7700C29F52C57DB17C620A8652BE5E9001A8D66AD7C17669101999024AF4D027275AC1348BB8A762D0521BC98AE247150422EA1ED409939D54DA7460CDB5F6C6B250717CBEF180EB34118E98D119529A45D6F834566E3025E316A330EFBB77A86F0C1AB15B051AE3D428C8F8ACB70A8137150B8EEB10E183EDD19963DDD9E263E4770589EF6AA21E7F5F2FF381B539CCE3409D13CD566AFBB48D6C019181E1BCFE94B30269EDFE72FE9B6AA4BD);
        lemma_hex_range_extend(t, 448);
        assert(hex_range_ok(t, 0, 464) && hex_range_value(t, 0, 464) == 0xAC4032EF4F2D9AE39DF30B5C8FFDAC506CDEBE7B89998CAF74866A08CFE4FFE3A6824A4E10B9A6F0DD921F01A70C4AFAAB739D7700C29F52C57DB17C620A8652BE5E9001A8D66AD7C17669101999024AF4D027275AC1348BB8A762D0521BC98AE247150422EA1ED409939D54DA7460CDB5F6C6B250717CBEF180EB34118E98D119529A45D6F834566E3025E316A330EFBB77A86F0C1AB15B051AE3D428C8F8ACB70A8137150B8EEB10E183EDD19963DDD9E263E4770589EF6AA21E7F5F2FF381B539CCE3409D13CD566AFBB48D6C019181E1BCFE94B30269EDFE72FE9B6AA4BD7B5A0F1C71CFFF4C);
        lemma_hex_range_extend(t, 464);
        assert(hex_range_ok(t, 0, 480) && hex_range_value(t, 0, 480) == 0xAC4032EF4F2D9AE39DF30B5C8FFDAC506CDEBE7B89998CAF74866A08CFE4FFE3A6824A4E10B9A6F0DD921F01A70C4AFAAB739D7700C29F52C57DB17C620A8652BE5E9001A8D66AD7C17669101999024AF4D027275AC1348BB8A762D0521BC98AE247150422EA1ED409939D54DA7460CDB5F6C6B250717CBEF180EB34118E98D119529A45D6F834566E3025E316A330EFBB77A86F0C1AB15B051AE3D428C8F8ACB70A8137150B8EEB10E183EDD19963DDD9E263E4770589EF6AA21E7F5F2FF381B539CCE3409D13CD566AFBB48D6C019181E1BCFE94B30269EDFE72FE9B6AA4BD7B5A0F1C71CFFF4C19C418E1F6EC0179);
        lemma_hex_range_extend(t, 480);
        assert(hex_range_ok(t, 0, 496) && hex_range_value(t, 0, 496) == 0xAC4032EF4F2D9AE39DF30B5C8FFDAC506CDEBE7B89998CAF74866A08CFE4FFE3A6824A4E10B9A6F0DD921F01A70C4AFAAB739D7700C29F52C57DB17C620A8652BE5E9001A8D66AD7C17669101999024AF4D027275AC1348BB8A762D0521BC98AE247150422EA1ED409939D54DA7460CDB5F6C6B250717CBEF180EB34118E98D119529A45D6F834566E3025E316A330EFBB77A86F0C1AB15B051AE3D428C8F8ACB70A8137150B8EEB10E183EDD19963DDD9E263E4770589EF6AA21E7F5F2FF381B539CCE3409D13CD566AFBB48D6C019181E1BCFE94B30269EDFE72FE9B6AA4BD7B5A0F1C71CFFF4C19C418E1F6EC017981BC087F2A7065B3);
        lemma_hex_range_extend(t, 496);
        assert(hex_range_ok(t, 0, 512) && hex_range_value(t, 0, 512) == 0xAC4032EF4F2D9AE39DF30B5C8FFDAC506CDEBE7B89998CAF74866A08CFE4FFE3A6824A4E10B9A6F0DD921F01A70C4AFAAB739D7700C29F52C57DB17C620A8652BE5E9001A8D66AD7C17669101999024AF4D027275AC1348BB8A762D0521BC98AE247150422EA1ED409939D54DA7460CDB5F6C6B250717CBEF180EB34118E98D119529A45D6F834566E3025E316A330EFBB77A86F0C1AB15B051AE3D428C8F8ACB70A8137150B8EEB10E183EDD19963DDD9E263E4770589EF6AA21E7F5F2FF381B539CCE3409D13CD566AFBB48D6C019181E1BCFE94B30269EDFE72FE9B6AA4BD7B5A0F1C71CFFF4C19C418E1F6EC017981BC087F2A7065B384B890D3191F2BFA);
        lemma_hex_text(t);
    }
    read_constant(text)
}

} // verus!
