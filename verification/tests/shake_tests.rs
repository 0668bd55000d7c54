use amcl_wrapper::field_elem::FieldElement;
use multibase::Base;
use sha3::digest::ExtendableOutput;
use sha3::digest::Update;
use sha3::digest::XofReader;
use sha3::Shake256;
use shake_multihash::Code;
use shake_multihash::shake128_mhash;
use shake_multihash::shake256_mhash;
use shake_multihash::SHAKE_256_HASH_CODE;

const RAW: u64 = 0x55;
const INPUT: &[u8] = b"shake, shake, shake... shake shake shake... shake your booty!";

const SHAKE_256_48_LEN: usize = 48;
const SHAKE_128_48_LEN: usize = 48;

#[test]
fn test_shake_256_48() {
    let mhash = Code::Shake256_48.digest(INPUT);
    assert_eq!(mhash.digest().len(), SHAKE_256_48_LEN);
    assert_eq!(mhash.size(), SHAKE_256_48_LEN as u8);

    // print mhash
    println!("mhash: {:X?}", mhash.digest());

    // use the mhash to create a cid, just for fun
    let cid = cid::Cid::new_v1(RAW, mhash);

    println!("Cid: {}", cid.to_string_of_base(Base::Base36Lower).unwrap());

    let field_element_from_mhash = FieldElement::from_bytes(mhash.digest()).unwrap();

    // assert same as FieldElement::from_msg_hash(input)
    let straight_outta_input = FieldElement::from_msg_hash(INPUT);
    assert_eq!(field_element_from_mhash, straight_outta_input);
}

#[test]
fn test_128_48() {
    let mhash = Code::Shake128_48.digest(INPUT);

    // use the mhash to create a cid, just for fun
    let _cid = cid::Cid::new_v1(RAW, mhash);

    assert_eq!(mhash.size(), SHAKE_128_48_LEN as u8);
}

#[test]
fn test_straight_impl() {
    // generate SHAKE digest
    let mut hasher = Shake256::default();
    hasher.update(INPUT);
    let mut reader = hasher.finalize_xof();
    let mut digest = [0u8; 48];
    reader.read(&mut digest);

    let mhash = multihash::Multihash::<64>::wrap(SHAKE_256_HASH_CODE, &digest).unwrap();

    // print mhash
    println!("mhash: {:X?}", mhash.digest());

    let field_element_from_mhash = FieldElement::from_bytes(mhash.digest()).unwrap();
    let field_element_from_digest = FieldElement::from_bytes(&digest).unwrap();

    // assert same as FieldElement::from_msg_hash(input)
    let straight_outta_input = FieldElement::from_msg_hash(INPUT);
    assert_eq!(field_element_from_mhash, field_element_from_digest);
    assert_eq!(field_element_from_mhash, straight_outta_input);
}

#[test]
fn test_shortcut() {
    // test shake256_mhash
    let mut digest = vec![0u8; 48];
    let mhash = shake256_mhash(INPUT, &mut digest).unwrap();

    let field_element_from_mhash = FieldElement::from_bytes(mhash.digest()).unwrap();
    let field_element_from_digest = FieldElement::from_bytes(&digest).unwrap();

    // assert same as FieldElement::from_msg_hash(input)
    let straight_outta_input = FieldElement::from_msg_hash(INPUT);
    assert_eq!(field_element_from_mhash, field_element_from_digest);
    assert_eq!(field_element_from_mhash, straight_outta_input);

    // test shake128_mhash
    let mut digest = vec![0u8; 48];
    let mhash = shake128_mhash(INPUT, &mut digest).unwrap();

    // generate SHAKE digest
    let mut hasher = sha3::Shake128::default();
    hasher.update(INPUT);
    let mut reader = hasher.finalize_xof();
    let mut digest_2 = [0u8; 48];
    reader.read(&mut digest_2);

    // assert is same as digest_2
    assert_eq!(mhash.digest(), digest_2);
}
