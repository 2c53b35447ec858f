//! The published EAX vectors for AES-128.

use eax::{AuthenticationFailure, Eax};

fn unhex(s: &str) -> Vec<u8> {
    let digits: Vec<u8> = s
        .bytes()
        .map(|b| match b {
            b'0'..=b'9' => b - b'0',
            b'A'..=b'F' => b - b'A' + 10,
            b'a'..=b'f' => b - b'a' + 10,
            _ => panic!("not a hex digit"),
        })
        .collect();
    assert!(digits.len() % 2 == 0);
    digits.chunks(2).map(|p| p[0] * 16 + p[1]).collect()
}

fn block(s: &str) -> [u8; 16] {
    let v = unhex(s);
    let mut b = [0u8; 16];
    b.copy_from_slice(&v);
    b
}

/// Encrypts `msg` and checks ciphertext and tag against `cipher`, which
/// holds both, then decrypts again.
fn check_vector(msg: &str, key: &str, nonce: &str, header: &str, cipher: &str) {
    let key = block(key);
    let nonce = block(nonce);
    let header = unhex(header);
    let plaintext = unhex(msg);
    let expected = unhex(cipher);
    let (expected_ct, expected_tag) = expected.split_at(plaintext.len());

    let mut data = plaintext.clone();
    let tag = Eax::encrypt(&key, &nonce, &header, &mut data);
    assert_eq!(&data[..], expected_ct);
    assert_eq!(&tag[..], expected_tag);

    let res = Eax::decrypt(&key, &nonce, &header, &mut data, &tag);
    assert_eq!(res, Ok(()));
    assert_eq!(data, plaintext);

    let mut published = expected_ct.to_vec();
    let res = Eax::decrypt(&key, &nonce, &header, &mut published, expected_tag);
    assert_eq!(res, Ok(()));
    assert_eq!(published, plaintext);
}

#[test]
fn vector_empty_message() {
    check_vector(
        "",
        "233952DEE4D5ED5F9B9C6D6FF80FF478",
        "62EC67F9C3A4A407FCB2A8C49031A8B3",
        "6BFB914FD07EAE6B",
        "E037830E8389F27B025A2D6527E79D01",
    );
}

#[test]
fn vector_two_bytes() {
    check_vector(
        "F7FB",
        "91945D3F4DCBEE0BF45EF52255F095A4",
        "BECAF043B0A23D843194BA972C66DEBD",
        "FA3BFD4806EB53FA",
        "19DD5C4C9331049D0BDAB0277408F67967E5",
    );
}

#[test]
fn vector_five_bytes() {
    check_vector(
        "1A47CB4933",
        "01F74AD64077F2E704C0F60ADA3DD523",
        "70C3DB4F0D26368400A10ED05D2BFF5E",
        "234A3463C1264AC6",
        "D851D5BAE03A59F238A23E39199DC9266626C40F80",
    );
}

#[test]
fn vector_five_bytes_second() {
    check_vector(
        "481C9E39B1",
        "D07CF6CBB7F313BDDE66B727AFD3C5E8",
        "8408DFFF3C1A2B1292DC199E46B7D617",
        "33CCE2EABFF5A79D",
        "632A9D131AD4C168A4225D8E1FF755939974A7BEDE",
    );
}

#[test]
fn vector_six_bytes() {
    check_vector(
        "40D0C07DA5E4",
        "35B6D0580005BBC12B0587124557D2C2",
        "FDB6B06676EEDC5C61D74276E1F8E816",
        "AEB96EAEBE2970E9",
        "071DFE16C675CB0677E536F73AFE6A14B74EE49844DD",
    );
}

#[test]
fn vector_twelve_bytes() {
    check_vector(
        "4DE3B35C3FC039245BD1FB7D",
        "BD8E6E11475E60B268784C38C62FEB22",
        "6EAC5C93072D8E8513F750935E46DA1B",
        "D4482D1CA78DCE0F",
        "835BB4F15D743E350E728414ABB8644FD6CCB86947C5E10590210A4F",
    );
}

#[test]
fn vector_seventeen_bytes() {
    check_vector(
        "8B0A79306C9CE7ED99DAE4F87F8DD61636",
        "7C77D6E813BED5AC98BAA417477A2E7D",
        "1A8C98DCD73D38393B2BF1569DEEFC19",
        "65D2017990D62528",
        "02083E3979DA014812F59F11D52630DA30137327D10649B0AA6E1C181DB617D7F2",
    );
}

#[test]
fn vector_eighteen_bytes() {
    check_vector(
        "1BDA122BCE8A8DBAF1877D962B8592DD2D56",
        "5FFF20CAFAB119CA2FC73549E20F5B0D",
        "DDE59B97D722156D4D9AFF2BC7559826",
        "54B9F04E6A09189A",
        "2EC47B2C4954A489AFC7BA4897EDCDAE8CC33B60450599BD02C96382902AEF7F832A",
    );
}

#[test]
fn vector_eighteen_bytes_second() {
    check_vector(
        "6CF36720872B8513F6EAB1A8A44438D5EF11",
        "A4A4782BCFFD3EC5E7EF6D8C34A56123",
        "B781FCF2F75FA5A8DE97A9CA48E522EC",
        "899A175897561D7E",
        "0DE18FD0FDD91E7AF19F1D8EE8733938B1E8E7F6D2231618102FDB7FE55FF1991700",
    );
}

#[test]
fn vector_twenty_one_bytes() {
    check_vector(
        "CA40D7446E545FFAED3BD12A740A659FFBBB3CEAB7",
        "8395FCF1E95BEBD697BD010BC766AAC3",
        "22E7ADD93CFC6393C57EC0B3C17D6B44",
        "126735FCC320D25A",
        "CB8920F87A6C75CFF39627B56E3ED197C552D295A7CFC46AFC253B4652B1AF3795B124AB6E",
    );
}

#[test]
fn vector_with_wrong_tag_is_rejected() {
    let key = block("91945D3F4DCBEE0BF45EF52255F095A4");
    let nonce = block("BECAF043B0A23D843194BA972C66DEBD");
    let header = unhex("FA3BFD4806EB53FA");
    let mut data = unhex("19DD");
    let mut tag = unhex("5C4C9331049D0BDAB0277408F67967E5");
    tag[0] ^= 1;
    let res = Eax::decrypt(&key, &nonce, &header, &mut data, &tag);
    assert_eq!(res, Err(AuthenticationFailure));
    assert_eq!(data, unhex("19DD"));
}
