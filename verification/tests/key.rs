use nebulous_data::format::key::Key;
use nebulous_data::data::hulls::HullKey;

fn socket_keys() -> Vec<Key> {
    HullKey::values().into_iter().flat_map(|hull| hull.sockets()).map(|socket| socket.save_key).collect()
}

#[test]
fn socket_key_texts() {
    let listed: Vec<Key> = SOCKET_KEYS.iter().map(|s| Key::from_str(s).unwrap()).collect();
    let all = socket_keys();
    assert_eq!(all.len(), 284);
    for key in listed {
        assert!(all.contains(&key));
    }
}

#[test]
fn test_key_roundtrip() {
    for key1 in socket_keys() {
        let key_str1 = key1.to_str();
        let key2 = Key::from_str(&key_str1).unwrap();
        let key_str2 = key2.to_str();
        assert_eq!(key1, key2);
        assert_eq!(key_str1, key_str2);
    }
}

#[test]
fn test_mask() {
    let mut mask = Key::from_u128(0);
    for key in socket_keys() {
        assert!(key.is_masked());
        mask = mask.or(key);
    }
    assert_eq!(Key::mask_key(), mask);
}

#[test]
fn key_bytes_round_trip() {
    for key in socket_keys() {
        assert_eq!(Key::from_bytes(key.to_bytes()), key);
    }
    let bytes = [1u8, 2, 3, 4, 5, 6, 7, 8, 9, 10, 11, 12, 13, 14, 15, 16];
    assert_eq!(Key::from_bytes(bytes).to_bytes(), bytes);
}

#[test]
fn key_rejects_bad_text() {
    assert!(Key::from_str("").is_none());
    assert!(Key::from_str("wDsRnL5nKkyYvKgD6VcPH").is_none());
    assert!(Key::from_str("wDsRnL5nKkyYvKgD6VcPHh").is_none());
    assert!(Key::from_str("wDsRnL5nKkyYvKgD6V*PHg").is_none());
    assert!(Key::parse("nope").is_err());
    assert!(Key::parse("wDsRnL5nKkyYvKgD6VcPHg").is_ok());
}

#[test]
fn key_zero_text() {
    let zero = Key::from_bytes([0; 16]);
    assert_eq!(zero.to_str(), "AAAAAAAAAAAAAAAAAAAAAA");
    assert_eq!(Key::from_str_unchecked("AAAAAAAAAAAAAAAAAAAAAA"), zero);
    assert_eq!(zero.not().to_str(), "_____________________w");
}

const SOCKET_KEYS: &[&str] = &[
    "wDsRnL5nKkyYvKgD6VcPHg", "Z48ot_dQfkWb6AVYjaM_gA", "IUdNSVZm2Eu9n3F5HnSAng", "ZxY9ONYz80SiLNSObvjNzQ",
    "XPaYCjBqdEqBxEIsVLP0oA", "xRYIkvssd0mPY3VIgrnQ5A", "rXO8xwG1MkqzI_2pU-O_qQ", "GefqwCQzg0qXA3EFRmDtPw",
    "4WpJyiOKVEqCwR99l47MkA", "4EHx4mQhNUi-WuuQtQF5fA", "TSPPW9ECe06-MGzR1i0WvQ", "MBOvGazj6UWpt2OOy44s7w",
    "IUdNSVZm2Eu9n3F5HnSAng", "ZxY9ONYz80SiLNSObvjNzQ", "TSPPW9ECe06-MGzR1i0WvQ", "MBOvGazj6UWpt2OOy44s7w",
    "PDKmGfvpykODc3XHDQ7WBw", "WwMGqYiU7E6lp7ID47phqA", "gkfIwYzn7kGhG6MW9uxBmw", "D3zoB0PetEC973iUck_mNQ",
    "98N-YI_1WUOs--qPYlt-7g", "6Tzo7268MEqgyFxnGvLKUg", "O_Y-AJc7r0alOg36rvY6MQ", "5APOD4UfSkGdkm9WWdAvLA",
    "lorATFhkTkeZQYThYOHazg", "bRgUlaoQJ0S7M91zMpdAdA", "Jmtnwo0KQki5QyEPPlBHrA", "V42tXibIR0e4u6riIHYZOw",
    "p-m7ijS6ukuqzuBT5NE_lA", "foApM84hT0GpEw4GaFv38w", "V42tXibIR0e4u6riIHYZOw", "p-m7ijS6ukuqzuBT5NE_lA",
    "NpYYAkA5Z0uAElOjDg3Rag", "fSYv4j5-eEObwJEVhoBSvg", "x21sadthgE2FtDWSJKINGQ", "IxKwpY5d9EicYRRTMn8xVw",
    "JpOU9MgWXEmfLcQoAK4otA", "LCosRblddUCjPogeJ5eSeA", "hGeid9yk80GqIN5IUlp8aw", "PlyaCcjDo0qu155JIZgm6A",
    "ytRGy84X_kW1odHYCBICDQ", "yM3Am4PqyUOIByTKzM6sPA", "H1ekC2-9c02VyNXY4IeLYA", "ln5c_ZvdCUSMVWZL_-m3yw",
    "H-oABJbYw0qgKd4QzU0WaA", "tCBEdcIUhk6AL-X6sCujsQ", "AWYvQUZ26k20yHOrVQKg6Q", "tmHTz6HkrE-RUtN94W6lyQ",
    "m5J1jQdOfUKM9r7NZjMpKA", "h29TSNGRo0m_DmeRr2BqDw", "E9sMCEquVk-NNj5heGmIlQ", "gx2UKetKWUm5BfZhiD5phQ",
    "ZJTmbGdjAk-XEKihIYHEuw", "x21sadthgE2FtDWSJKINGQ", "IxKwpY5d9EicYRRTMn8xVw", "T9Ebo41iA0eBXNYx8uyisw",
    "2QQdxC4UE0KOM42r82-ETQ", "IFKM9E04aUaHS0IoNDMShA", "rX6hes7UqkyHjEyKbFaWTQ", "BRMwuusKC02YrbFXRrrNzA",
    "vO1oPhlSuUih_cdAZk3Hqg", "RLHQUFf200uLZjKX5axkMw", "uyPDg0tD3U6YKz18bVdkPg", "Xicf0TT7pEaFy_x1uk7ueQ",
    "XTg1H1Popku5gxW8sei5XQ", "a8H-rPyVSk6uBOrP7lQYUA", "NBbnpHfpDUSS6bNgDlSjzw", "f_SO68qAGU-sw69T9GEWow",
    "9R0tfjsN-kiETUBLeCCmGw", "-bAF6R6aiU2Afn8T_oKY4g", "-7H3WGDwyESDI3lkHzBdGQ", "o1o5WOogUE255YVi43KlcQ",
    "DAcDeA0yskSjje92CY-F7w", "jKvCg9nYmkKfAn4-ht_Y6A", "8VKMmbA23Em1f-MBZKO2vA", "udQjNCWlA0awkv6LhH55uQ",
    "3eXWUksWXk-5q9MW52rghw", "_jqFwgf3EkKUUqHzVWidzw", "qulLVFUtzk2Qm8rZtfpFDw", "N_gGUWCQx0mUOX9RaFoI6A",
    "E1ZSbpYpZkufCyifYiiK8Q", "-hETYcmKH0eeXzkFpnhgeg", "hU2L93VfQU-jutnRC0dKgw", "RLHQUFf200uLZjKX5axkMw",
    "uyPDg0tD3U6YKz18bVdkPg", "Xicf0TT7pEaFy_x1uk7ueQ", "XTg1H1Popku5gxW8sei5XQ", "whDP9rtbukKsocnrqnqaLQ",
    "8CtCKPLfZEOOFvm1DhV-oQ", "N7yRYYUuG0uOzd5aufgViA", "lYEQo4jJvEGxRqJa2MB25A", "9qreGP2Iw0KwuloNpNFTSg",
    "v9Sqa5DcCkibdi29AkakNg", "3MoeYUx1HUS6xNDBMsssig", "LbD9Txe-S0a_nODTqtrk7g", "KxV0hkkGBE2AOUCo5axQbg",
    "tyGXrucCjUe0FVyP1YDpUw", "rXZhdtbK3EC8K_cu6-r_Xg", "ylUvmASKlEiyCtyCsNRKWg", "TX2TktZe7EWB9s-MqlDQgA",
    "cMs0g0g3WUeZJQASb7omew", "iHYg3DdYAUKS-uIBaRpNqA", "j2ST2yYfwk2_tBIayI3sQg", "SV_4BgcxwU24YIbep-k74g",
    "A8e_Z_d8WU2qzo6HTQwCBA", "2xmOS4ns_EaMYjBXrrhhig", "y1xLixKUzUSKT7Nz7aUkLQ", "RmUeePb-8EGbFaRgVjCXsA",
    "eYp1IPfupUGVITrkVhgZJw", "lxkgmNwqjUua0sRee2pDJg", "_Aun-HW-DkOGytVmYSn5IQ", "2ZLEJvxYf0CATl1lBi3cuQ",
    "ba-3VQ-zGEmDCfU12uaqaA", "hQ-Mzyns0UO4oMp7gG0d8A", "oyAxfnepkEG46VjtvQWXpw", "Yo9hPw6Mf060B3vqwSO4GA",
    "CgpRQa-660KEed1wTRL4vw", "awwdeDnNs0G-RceQF1TByA", "tnZD-B5Ls0qAyBtdz4yoTA", "S8ALcpOMYEqJog1v2q8UMQ",
    "rQWETsDGdE-AR8N3NPfwXg", "lYEQo4jJvEGxRqJa2MB25A", "v9Sqa5DcCkibdi29AkakNg", "9qreGP2Iw0KwuloNpNFTSg",
    "3MoeYUx1HUS6xNDBMsssig", "tyGXrucCjUe0FVyP1YDpUw", "rXZhdtbK3EC8K_cu6-r_Xg", "vvpl_pV8B0W33ernrw31jg",
    "AznvpY2By0GiQxgeOTktww", "N5nMrtk4bkiSDzOffAmI1w", "HsGDhCR_T0KH1ddzUnSHmA", "oRZYmSFdsk2BFB03PqyS2w",
    "csaNZW85vkO8uIQ9XDe1iw", "eBG0UhrBiky4nUx81rPbLw", "M6NaSvLam06C-1DTggI99g", "3HKNGt305UC23fGT8OKcLw",
    "R_Y-LTCc0kydl6L8Sq5Dmw", "-gtO0aqGDEOH-Tm612wAoA", "37oZ894X7kG2Dq0E5mEKDQ", "ZjH6aPXnl0eOdklaPsRNAA",
    "4dNKr5i87EeDGq9coaWYJg", "XAbGPXPgDEuDieQDqbA9MQ", "SX-a4J4eek2nmJztXePU3Q", "4sUWwP0VukOFbXT1YAMa9g",
    "09AenxIgokykwMTCMJz24w", "RtZe85sJUkO5b1xVdgPlqQ", "8YQv6H5fN0SylDc4p2fT-w", "6P8ohHGH_UaCAMEE5jFoRg",
    "80T00-71i0Wz-uNk04dzvQ", "GbGNS6ZFo0qx-dxuEmZTbg", "tkt9JPA2V0CWAO-Dfj8FHQ", "QkO76Z2PAUq8iD4cuc_P4A",
    "lp31cinWLE-ZGgtisuoaug", "wbgVupdnzEGle6f8tezZYQ", "Jl5HmssP406Au7n4NHceQw", "-wa5U_hdw0mHKI1PglDeGg",
    "97l_f_ktb0yoEquIa75icg", "Cz_cm8aRt0mRiYxdq26V7A", "eOvmJ625f0yGavYASYtYYQ", "1I5WRAX0oU6zIv7yEvqfmQ",
    "98aZYYnrXUWKXheUXHoLLw", "cVsLdxme_kGSU2jWlYnXzg", "rWWXZNnbKUi7djDPaKTttQ", "tgWD8fbOBEWq4KfvYDN_BQ",
    "4wfe6HbB9kCN7CDcF7_POQ", "yAg2wUCkJ0a6Ef3m96WyYw", "rTbYkycwWku-Ye1FCBJbvw", "-ao2fBk-zkK3QTdVH4fqHA",
    "5lOFQqLf-kOQq0zbIv0MKw", "PWWRnNTo60Cx9faCbUhx-g", "31ilgFi2f0ScvJbFia-Opg", "MjJFzcmp2kCLRWmjC30TKA",
    "oRZYmSFdsk2BFB03PqyS2w", "3HKNGt305UC23fGT8OKcLw", "csaNZW85vkO8uIQ9XDe1iw", "R_Y-LTCc0kydl6L8Sq5Dmw",
    "eBG0UhrBiky4nUx81rPbLw", "-gtO0aqGDEOH-Tm612wAoA", "M6NaSvLam06C-1DTggI99g", "37oZ894X7kG2Dq0E5mEKDQ",
    "3mlCA6C6m0GI3wONZK_aqg", "fbAgHM9u302peFMSC0TidQ", "rbZhGCN7UUWcgLsNZkZXIA", "hh8PA01jxEytn9KuihcJ3Q",
    "wDWAeeoAK0mAx3hbF1tMlA", "CcSXjIupV0Kw-jxaV6HpEA", "bInyh5AAt0y_m-3UaI8Ysw", "-harMwD0o0OExuMqT63fTQ",
    "zUeDN4FpYEyyWHIhTIgZFg", "uXJ_fvsZ3USAs1SpiTrZ1g", "03vxralGq0CFx1XKxjOcBA", "cIGspM4oYU2etRfjIcuCCA",
    "0upOgm0H0UuZ-h2YvRjmBg", "KnFHQkb9uUe98IweLYf9wg", "5kd20hGcxUuTlY-6JYaudA", "F6bmJdCO3EqzXK9SBJoXUw",
    "-PqoLKimSUOZtKMLo5QHXg", "DakKS2gy6UyM58u3YG-HfQ", "peqaYrE39UupWCXPY_PgoA", "6OieSH0A6kKFmquctn9_aQ",
    "NSAbhn9brE-aAirJFIYG-Q", "_qlP8rsUpUiJpkRc1tcjPQ", "RMDTRlITGUm1ZgbIgWq1Xw", "v7vnexI1xUemaSmSkn0QNA",
    "KnFHQkb9uUe98IweLYf9wg", "5kd20hGcxUuTlY-6JYaudA", "4V6twrIUcEKE11tom-tDXQ", "yN7f-9tEXEKlBNskqP6EbA",
    "Z2uDs34J-ESu64-i9YGnxQ", "gb6_3kWBY0KlEWeex3ruDg", "_y-Bd-EWjUeMIrmzG3UxvQ", "gDQghm5iik2syYcoJqUPFg",
    "vtme83CXg0qDA4_YK6NqwA", "TTM8O-MUDky06__LwvSo8w", "rGVFgJ8GyUePoRkz33c1sw", "_hUvj899GkWP0bnjDN1ODw",
    "N4KIOsNqeUGVAUrx5OW3DQ", "9K_1ZNCgFESrvaoQMOH3yw", "HNv6B-78FEuhV8YT9A6uZw", "HvdEBsnpUUypPN4uW67paQ",
    "iDdlfFwKkUO9HbumzymceA", "DaqWEX-8gEeIzYrhp8NIMw", "EvZ6JN5xV0aUlKEeeKxFTQ", "CU_oraqJxEaB3dTzZW2MkA",
    "gb6_3kWBY0KlEWeex3ruDg", "_y-Bd-EWjUeMIrmzG3UxvQ", "iJzzxinSN0uJIjrt9M3aGA", "lQ7GplJ1ikW0K_QhXK7GvA",
    "60X-7VSlxUq6Qas-KwszMA", "4v5e01-gEUiTNnQJevNpGg", "o78jebL2nkezXdHJ6xA3WA", "Gpm2KFKPCU-0ECKr0YsJAw",
    "-lwFeyvDUECyC-AuVfATog", "rI5k7ytZH0S7yQLZnFB_nQ", "0J9pyeFp6U6KMEAXiuNHHw", "mP5XoHZ3Wk-DsFk3YLAxzg",
    "xe7LNTrStUuS8PMCn6KYsQ", "4NKBOsswyUGpVA-YP-T5ng", "bzRgWNrBdE6BjUaGy8G1tg", "foWiXJZCEEKQx0LmO1IMnw",
    "viC38BuOaEuyTlVDRdF0gg", "GXIxYPfk8E2cbQnK0U1QNw", "q5iHLt9VEU-166x4NJmr4Q", "vXXZA02qQEyreCSFbtLJOA",
    "S03aWjfX90epbCcytu9_xw", "aImgD6jcq0GZXRi5MmyeWw", "hjHxzsG5iUCkaG0eGd52bA", "Fp6_NyEq1E-ZGeZxM9kjUg",
    "-XwaOMN6eUSsztvywrmXVQ", "26mxVeOdd0SB5ZSaG_hJ0w", "c2zMLaokmU6GUJMYfS3N_Q", "t3_3a8clbky2DQa0g_ODgg",
    "73x1IW-ccUSI_0bIcWMFPw", "LNhnTOaflUaLPxvcpEctGg", "yPVEWDqw0EOqF2I5_u-ETA", "FDuYw4ygU0ik6wQg6rW2Qg",
    "4v5e01-gEUiTNnQJevNpGg", "o78jebL2nkezXdHJ6xA3WA", "mP5XoHZ3Wk-DsFk3YLAxzg", "xe7LNTrStUuS8PMCn6KYsQ",
    "E9IMUD_Uz0661-nYgJh4Mg", "auQ7ijGeX0evdikZQeBxTg", "d3N-B_JnDUKAdVRBJ6nvFQ", "xvNT1_DYcUuSpU6rrmL_4A",
    "t0T4CSAPnEq4rvHAVl84-Q", "grYBjxIS3E--lmrqenuK8A", "8pltGexHAEyFL2ljOe0oMQ", "tcQfj6XOHUWFSAx_W0cc1A",
    "bxvsvg5znk6TqiIKq8H0kg", "9EF9u0V1eUetleBnkQhHkA", "I68tNng-K0yG-AoUx0HcSw", "Sb5-VSuwlkWpT6ViRiJ3vg",
    "6ZiODnoXqkaNWvaqyGjnwg", "87PSgg9GREmGU9MIRAXXhg", "VDQhZPo-rkWkzwozat27fw", "y1Cs8LR0KUyCKUAJBIOyOg",
    "fYoX2amTl0KrZurPKjU9gg", "3Ky8PvdxqUKMRXZa0xLF2A", "T9TN0ZYumUaCxcSRjO_qTw", "T4d-8WnA_UiHSJh6PXiXpA",
    "6LpDL27QuEW0PZCm35Nx5w", "QIOFQpQSKESIdNzf_JEFyA", "FVcPIcV_00eu62NQQK3oLg", "1FrTJ5o850ynlq4dRDmMbA",
    "vOzzHo4KfE60wZ3Q1s38GA", "6evWdeLGT0uALe075-nhgw", "JVCLf3RKKUOBEXaWWkVLMw", "JHJi2y5Xskytpw5-Qbu95A",
    "yryHYXgMWEy969gRuaDO6w", "M3mc7A4WOU-2fq5XgRSECA", "S-rQo19r20K0L0PRer3yMw", "MQyTgOLGCkyeljdvbkkFDA",
    "E9IMUD_Uz0661-nYgJh4Mg", "auQ7ijGeX0evdikZQeBxTg", "d3N-B_JnDUKAdVRBJ6nvFQ", "xvNT1_DYcUuSpU6rrmL_4A",
    "t0T4CSAPnEq4rvHAVl84-Q", "grYBjxIS3E--lmrqenuK8A", "8pltGexHAEyFL2ljOe0oMQ", "tcQfj6XOHUWFSAx_W0cc1A",
    "Sb5-VSuwlkWpT6ViRiJ3vg", "6ZiODnoXqkaNWvaqyGjnwg", "uLHDwjLFekuYaY3h0JwZoQ", "44SMwZSbRkOQyQmJ458Y1Q",
    "VkODw--0zk-K4FkajpPjwQ", "F-nHNZm4Z0WZMJakJAwlPw", "y70HHuLWd0uphO2H-hvZGQ", "NjfVPFfJqUmkw-AR_2KBjg",
    "TcS59cU8X0aEm3ds7Nqixg", "3WEnDKibY0-WJvtq9-tmuA", "6HbbAtLFGUOi-kq06ErQdA", "bF4isjieO0m0PsOlE-zgkQ",
    "KuKTAiCM50uIV7XV1S8wrw", "y1Cs8LR0KUyCKUAJBIOyOg", "iWiBr9uCyUCBub-IIW2bZg", "QhdtovcTk0WSpMAUsBIF6Q",
    "T9TN0ZYumUaCxcSRjO_qTw", "T4d-8WnA_UiHSJh6PXiXpA", "hs-SaPpehUu8ZbwsuJSvXw", "jhY0RlqxLkW69clFCGXELA",
    "OE8qVccIYEGwfvJXsiFgoA", "UAmAj39M3E2zPnVXF46kZA", "yxnQxeuUHUO22pm-LQu4Cg", "_uEQzHKRzEqqIqa1c8wJcw",
    "M0ewvimLKU2vXoznZNDoYQ", "cXpBal32p0-R2pA6hN056w", "OY726V7rAUKDR92MQM7gnQ", "SmUC0Jc9FEuCeKc_ZJMxIg",
    "uLHDwjLFekuYaY3h0JwZoQ", "44SMwZSbRkOQyQmJ458Y1Q", "VkODw--0zk-K4FkajpPjwQ", "F-nHNZm4Z0WZMJakJAwlPw",
    "y70HHuLWd0uphO2H-hvZGQ", "NjfVPFfJqUmkw-AR_2KBjg",
];

use base64::DecodeSliceError;
use base64::engine::Engine;
use base64::engine::general_purpose::URL_SAFE_NO_PAD as ENGINE;

fn key_from_str_w(s: &str) -> Result<Key, DecodeSliceError> {
    let mut out = [0; 16];
    ENGINE.decode_slice(s, &mut out)?;
    Ok(Key::from_bytes(out))
}

fn key_to_string_w(key: Key) -> String {
    ENGINE.encode(key.to_bytes())
}

#[test]
fn test_key_samples() {
    let mut mask = Key::from_u128(0);
    for &sample in SAMPLES {
        let key_w = key_from_str_w(sample).unwrap();
        let key = Key::from_str(sample).unwrap();
        assert_eq!(key_w, key);

        let key_str_w = key_to_string_w(key_w);
        let key_str = key.to_str();
        assert_eq!(key_str_w, key_str);

        mask = mask.or(key);
    }
}

// Generated from random bytes
const SAMPLES: &[&str] = &[
    "keE8mLOSiyo3bY4df_ft_w", "Nsne_LepZW660K7j73jGFg", "g8r2Az4V6YrkMPeRgx527Q", "VU-eC72x6880l_w2yt8QXw",
    "fcTrEIwXrF5GkGhhOOtsMQ", "E5Yiyr5csEKhV1GOGCFH2Q", "06XqA5oika-YzcTzQ8n9lw", "DNu4zJXq1bBv3sZ0-wJnLw",
    "IY_ayi9F90tJjUmzyC842g", "wBE91Ql_TJE5wTb6OLb2Qg", "fDpR396MwJzmkpuXCe7IrQ", "1lQ7sEPfLmtvd7UKxk87TQ",
    "rY6Vv5s2zl3mdkwc9kSUAA", "_tqmMv3bfZGjaw24eqozHg", "WohVhJWVLOni1H2ltjqEYg", "5pR5o5L7NE0Pke3U6lNOIQ",
    "PwpR9kD-o4_s0XEDBsSu8Q", "jUHNgz9X9V1FNZpGdjTQvw", "2Sc2bSIBhgp-AJuzzEM1sA", "ClUu6Bj6aTCcDAo5QnHncw",
    "gWSEDIg5a6JCWesPNz5suw", "mMuardKuwMmppqhtjtDBIA", "sFTnw8blFM6trV29HSJZpg", "uz8n05cK_vJ-JInlawQ9DA",
    "cIZSVIwOPEW5gZoZz6O6jw", "SqnommvURRwWIvapgVoocQ", "F91vg18e1pu4Mpr1PG_Qug", "azJ6cbrrRxmrZY8-6QFCyg",
    "NO75xA3lndgCp-ZDYHoASQ", "Q50rgsIU9Iz6AR2b30KKLg", "VkssSG1pHUCqnN_67I8siA", "WYXZmlr5gEjIxZJOKPiJCQ",
    "NLecROlStPRb3kqXBsa-qg", "wyB-yiEGk8meYoJacis8gA", "h-YvSF4iVdUPKga3BG5zRQ", "6MrR2bddXXGzHjuCb4B_Pg",
    "JnzU_YyN4gH1t7rCL6_UZQ", "w4atO2Oi1DWSQkNEzAJbNA", "kVoq9mdpHGiHve-TVoV9pQ", "qtZD-99NqwOng1tyLROKOg",
    "ub8Hnh9Nzw8KirDLn9XpKg", "bC1vnu1_jOhdQ2neLRYScg", "qlYYvFJpDnHR_iQaQXcVRw", "8AuGDaJ-qFvUjkLBiiG4PQ",
    "iH15CxKmW96ThR4dY2vS4Q", "-_9O5C6PfedFGLhnbLQmbw", "KvpWuNc98ja8Y0MHpP_J8Q", "jMCHEe_Ag11izzkGy0G67g",
    "Wq-vh8ch39bXBWqSiMCr7w", "pK2ZqZ-etq5laRxN7v_b1g", "eMp0dWfTID3AupU0_qU5MA", "LqtF7GF-jLweNg3qBGTAyg",
    "pBf91KtKXLQ4xKYW_OYGuQ", "W0YDITcuSw9Us46GSA_NnQ", "YPxqdHn864jxvLGCz1KrLw", "rP3_Zi6FBKvY-qF6qNhhqQ",
    "NBoHG_8tbvuFXGuepx-Yhw", "kwLkY6GDLAkM1rhjwbSqBg", "Ak3vdvwWwt_A4ke6MpNqlg", "A-1Zo17olP9jxkdV75PXBw",
    "FIFcT9UtTXrTcLnKejkfhg", "hMo1bsP6IKgslp6gTytIRg", "waXyHluJnKPeN7Y-oPBhIA", "rAEctHVJ0EBpsZkDEv2lrg",
    "4rsMGQfez06j6SkjdxTQzQ", "LVEcNmijzUuftLYx601EbQ", "iwaiKL3dgIaFq4Lv00H8ZA", "fxi0ovJyMN0Y71NecmSDuQ",
    "Lzt49GQsXAgnIT6DRDr0Uw", "04geUqxOyupyl8B1gDyBzg", "9z_w0WkBbg10ewB7YeDk_A", "dQJEjSUE56BPQra7IGD2VA",
    "uvyRaQ5AgDGX1rkugyx8Cg", "5I9g0ioUUjTGmNuyI1Z69A", "NYBD7SRuQPwVPbkXEhh6cw", "BnD94HxpYdyiXDW6NFxZsQ",
    "3I0KLLv8quJbL7pmnvEVQQ", "gqxG6HxJM4vrmLBTHkgl4w", "ae4NGLXFxtaCLA9OjbNdLw", "s2c-k5fDgobmQrX6tpIgZg",
    "RC9WIkE-FbytYEHKQxwFMA", "7_mqWPa9gjOhjRyP7NO-KA", "Sxzx2L2MyoxGF2bh936wqQ", "_yhEWWhZsI4H1QydrGiZ8Q",
    "7iil0osPmdZoKSHoy2uPBw", "YbjbMXoRcmOZwIu0f4h7JQ", "GbARHo0GTF56EREk3pxE3A", "lirdp-BwcHtx7NBQ--fUjA",
    "XSVUz_BZ28o69gg-FLRXkQ", "EqzKwmXA2ogV1tthgl0HRQ", "-6yr4aTlUpNPrZmMxyB-NQ", "UfInfQieLkdUnqKS39RUhQ",
    "gzoRurlU570l9KcWGZr5Lg", "amqz75fUkCk3gc_OPbE4yA", "FJpK9-bBoEQCtA5qMSyeQw", "iMGfrROtikL6RJavhpQubw",
    "ue32VbNeH49NRpGHxoS8nA", "r_1h_T2D9mMFM7LFzijkOg", "vMzH0tS3Klj28gV9ZGNQgQ", "gn3aVnik6NZ1pBQKSeOCjA",
    "Nb3RcT1OmedWDcA3WauFqw", "8YL_qHuSOM-x09SKOyvn1Q", "d2wb-GZHbC5OuQQMgZ8XgQ", "227XsTxd1oCQ3RJghsoe_Q",
    "FIPW4__Uue4uQ72yhd2O6w", "vs-vXUfsyHyTGIN2TBSBvw", "EIpbpCiwcdtWsstwD7GdOA", "VNltpAaepClvKgjpFVmMOw",
    "8yUTZ-P5_avcChU4F_PMaA", "RVDpMH0NlSGYK21qwkfjCg", "IddB4au9dE01mH4xvcXRzA", "LcntODdRH9-fSNqKYMUZGg",
    "sNMm60qoIwdERaZYk9mJKw", "FhbKIgcGMfbLFw1ofaD-mw", "3Gx47ng6_3VnRXeZv6zl-g", "VMzJaE1djisRCEMac02WIQ",
    "7fePe67GazroHsTZ9_MQkA", "LOkuHJI5ztbHBBEodhCV5A", "7Dr136dU19oI5KzzHR2T1A", "wSq0TUHhnczXtTBX3iJ8Ng",
    "EdVPWlFtx_cTZPiDTdklsg", "KiSJEUeR48r5zFkZ7ZGsFA", "bI7-dUvbrQ9Qsb9MFOKfEw", "7NyjKahGoITp2RgImGSJ7g",
    "9kFLv5I2akujV6_WrRBClQ", "gjQ18w_nKf8KTktbOEgPPw", "Q5ewnOpGulX8o8jeSOLuwg", "y_RhJp6_6OgVxOiH45Bakg",
    "9zGaXwtZQNC46YcdRrOSzA", "4Jx4S7X0z-5vehIjbEBWXg", "07MCP_1DwsnEPmo9Vg5eFA", "g-GzGuHJJBnDeSMriHYPtQ",
    "UmOU0gLLeO95_qU34kuYVA", "GzKhjmFMkaOvVGDzenPoxw", "Ws6Ey6whqq_AkXbHZglkNQ", "qLDF1MZXq-AUA511sqitsQ",
    "WlYQHpNqQ56idML53JgOZw", "ztGv_ptLNKShQVz03nWH6Q", "PWEXCPO9RrF_tVTKoAFnWg", "lDLc2hOIe_sqTJI8i8oxEw",
    "Hk39lJOunHniO8qGPqVKXA", "rt-yhwS_UMRALzO-gXhYjg", "6fwpRSDrC83ydzSNPNMXhA", "fWMFsEVKOo9n819HIbQHhA",
    "5X8Sy7bqnnFFFn4fwVbBpQ", "3uALnSnTe16SHrMwTPy1FQ", "nFCk_4e53jrvzscl8DPECQ", "IAaDH0btzfErNXyXq8dRaA",
    "WeGCZXjwG63f2NZQ3mAHLw", "DalHPbgHucveltybvYnOQw", "C7mdEGz-qZ57AJrlhbmRgg", "q-dYMYJAQeqbgwt7RQC5yg",
    "GTrvhHnEvextS_4xrKYa9A", "ia-UX68tc0tzvksgFf9-BQ", "9nQwENtLgr5jVa7mvAeedg", "0mBdpMZAwEdwVWzKupZBgw",
    "q08qkCBaBwghPl6JWS8mOQ", "9xFRgSr9nZI7-XBhcDByWw", "IvOYSotXnW5hLxwh0vEqhg", "s-vpKqNMSzMT9ODu6Q27ig",
    "5ZGNm0kT5nXY36rSSuwkGQ", "o9uC9Gn4ohJFyHD6-UmFMg", "KoW81FMPmZbIuN5twty9qw", "phIhthWlQBiN1qQ9P2KYew",
    "kwIDMmRx70inaKr9qf0jiw", "XGaIz1jwOZewMll8N9QflA", "PEIzF2v0mx97blBS96QlJQ", "NiDuqUTgJGPh5YrQw-s99w",
    "-1ZgXknN3C2G7cn98CbZ1A", "f-hS0NosDDtSU8V5ZcasBw", "aNJgoUJmmfLDHzkiwsoEtw", "dsTw4AlUyTYQknnztBH86A",
    "dTKy6EgIGkN5kIMLsJAjBw", "j3wNhTfwLDX5eU23mTv63w", "wH7ItVROuoFzlXGjT029Aw", "9O05jqgHsu5IaBx77e4I7Q",
    "5a7fPwc3mMiR123oESfGUQ", "SwI8viDDitHt35IP1mbQBw", "T8B30atxBv6t1FEHM_GCcg", "78RXrue10oUE8XyF_82SLg",
    "uDXt0ShFB5b1tHIBXEZf_g", "moUWPG8ypQynfahkpVP5gw", "fElDlSQZCUHg22W2c-Iq6Q", "yl3nFBNE6E0_9Skp-L6fYQ",
    "WISbx632kzFXjnYBfpu0EA", "X0DNLUee5WM6uWZACCY-Eg", "n_0cofngAWqtOLmOIE8c3g", "BtcKH6ai6l2mLL_se653ZQ",
    "ExPj6wv0NDwPicxtHEJ8ow", "3GG2s-Ah6X6bB4KHqbsBbg", "X1MkR79TR9dvNYxkCrhksw", "XOl65gR5qwfxY3J0O9c2lA",
    "qFjDCFduucEDK76f1TQSVA", "YF0xn0bsaXCOc3Z4sLgqxQ", "js8dndJgHIryMPP17eUeWA", "73aI-JzSKab9fbsgswbA_w",
    "nNXYXK1-10Ts6-Zg3EQtdQ", "EuE1-tBlLVpFInPnoYzNFw", "KKTLKefBtfNh1wUuq7m-7A", "fj6vcTizO7qX7USdejswVg",
    "SAZnzxP-k20fxsmfVM7rgA", "XmMjgO8q_BXLZoJc8cqdXg", "e7XAdl5DX1o9fSaMCLb5pQ", "KJp01ciSEh6RbP4O_L91vQ",
    "xKdowWrHy9TkuzCZMzRa9Q", "hwfKLpKMAJYP1w4htOf9cQ", "RNIPhJq2tvQFH99wf5S51w", "CUomiFn5SUjVArAGeXOyaQ",
    "kTmkdlWskEY64Zo836adEw", "YAR8xte4H3j8Xt6KYj5-KQ", "Z6LkzXbtFBYDSqJ90GDD5w", "NUaVhzVIPfmAbbK_NkvQYQ",
    "WJY-xoxJnyeI1v42fv8Dng", "NkSFwnfDowSUThGsnO9OGA", "Z0bf-_aFQBleA9GRSgGmTA", "gbgt6rzNOJ9nkTUQwp6eJA",
    "foaEb-d9sSid47D6EzoxcQ", "4xo0KCrAmo2qSRdi_MWqvw", "h1z6kwpFNtwAwHZvCv9FhA", "J9WI0PoqZgHggnPOuCAN3w",
    "muGehPgt6dlqqmu8Wa2X2g", "ny26ojk-La0VJZY9hT9Bfw", "8w_deyRjHPbsc9YFS2mTaA", "44GAAbDxYNbuWKP9F_0Hyg",
    "HKAUKTtYMsqkPVR-oUrdSw", "HHxJztZLrTBxv9GJyV-pRw", "x1AHC02tCE9IKS_EmXgYIQ", "LJ363lqExxULngJGYJ3xmA",
    "iUXM_DYcDD8wlmd_yLEqeA", "iYtqvsk56XgVHAEwEaedWQ", "m0Xt7HRmXBHbJ4oDeO8lRw", "pTV27MzrKtBUuREi96uU6g",
    "VSzMvjeTrihz82-rH5nTxQ", "PE6Q537H-E2oYCQlC5GLvQ", "NrRocvUCZorZQUdjlFBhRA", "tiuPyVX9Zksph8-i-m93Zg",
    "02qdEmeu6Slf-n1K4o3Mbw", "KB5uTjmxJEjDWbensCXhDg", "ug-0iJfgMycpKNzfZi8w_w", "w3dnBeGDWJUrfkEuZOGhqw",
    "7H9Gi1o2Iyf1IOpbR0qRkA", "xLApWSHSBcVVBzRFs7V_7w", "zjtR8skhSQVw3oPu5GzrWA", "DZdIy1PLJn0piZcE4gBLoA",
    "XzJ_jQG9SnqDut3e6wQavw", "HnqJdLwr5I5SsD26dkg8Gg", "ZJwLJ_hPvTixf8KwPNamxw", "OTbJkHUgDALWBFeIy-RxuA",
    "-da7CAU1xZD1AvCWt2bOtg", "fBkZjaABojK4t4pLYJ-b9Q", "WLTMTYQn8iFVlG06-aq8Ag", "wHuXMvjfCElgfAphcirRiQ",
    "g_8C307Zzr3y1fdCjXGqEQ", "8ALv8EHsVYg9sLsskRzQUQ", "JXdwxNLGGIfemMdWLXad9Q", "HgPODloSyYj-E-CQqfea2Q"
  ];
