use chill::api::state::{Config as ApiConfig, Fees, Recipient};
use chill::program::state::Config as ProgramConfig;
use chill::program_error::ProgramErrorCode;
use chill::pubkey::Pubkey;

fn key(n: u8) -> Pubkey {
    let mut bytes = [0u8; 32];
    bytes[0] = n;
    bytes[31] = n.wrapping_mul(7).wrapping_add(1);
    Pubkey(bytes)
}

fn get_recipients(number: u8) -> Vec<Recipient> {
    if number == 0 {
        return Vec::new();
    }
    let mut remaining_share = 100;
    let share = 100 / number - 1;
    let mut recipients = Vec::with_capacity(number.into());
    for i in 1..number {
        let recipient = Recipient { address: key(i), mint_share: share, transaction_share: share };
        assert_eq!(recipient.try_to_vec().len(), Recipient::LEN);
        recipients.push(recipient);
        remaining_share -= share;
    }
    let last_recipient = Recipient {
        address: key(number),
        mint_share: remaining_share,
        transaction_share: remaining_share,
    };
    recipients.push(last_recipient);
    recipients
}

#[test]
fn state_config() {
    // the configuration of the Chill API, in Borsh
    let mint = key(200);
    let fees = Fees::default();
    assert_eq!(fees.try_to_vec().len(), Fees::LEN);
    for i in 0..=ApiConfig::MAX_RECIPIENT_NUMBER {
        let mut recipients = get_recipients(i as u8);
        let config = ApiConfig::new(&mint, fees.clone(), recipients.clone()).unwrap();
        let mut buffer = [0u8; ApiConfig::LEN];
        config.pack_into_slice(&mut buffer);
        let unpacked_config = ApiConfig::unpack_from_slice(&buffer).unwrap();
        assert_eq!(config, unpacked_config);
        if i == ApiConfig::MAX_RECIPIENT_NUMBER {
            assert_eq!(config.try_to_vec().len(), ApiConfig::LEN);
        } else {
            assert!(config.try_to_vec().len() <= ApiConfig::LEN);
        }
        if !recipients.is_empty() {
            recipients[0].mint_share -= 1;
            let config_wrong_share = ApiConfig::new(&mint, fees.clone(), recipients);
            assert!(config_wrong_share.is_err());
        }
    }
    let recipients = get_recipients(ApiConfig::MAX_RECIPIENT_NUMBER as u8 + 1);
    let config_overflow = ApiConfig::new(&mint, fees.clone(), recipients);
    assert!(config_overflow.is_err());

    // the configuration of the program, in its fixed layout
    let fees = Fees::default();
    for i in 0..ProgramConfig::MAX_RECIPIENT_NUMBER {
        let mut recipients = get_recipients(i as u8);
        let config = ProgramConfig::new(&mint, fees.clone(), recipients.clone()).unwrap();
        let mut buffer = [0u8; ProgramConfig::LEN];
        ProgramConfig::pack(config.clone(), &mut buffer).unwrap();
        let unpacked_config = ProgramConfig::unpack(&buffer).unwrap();
        assert_eq!(config, unpacked_config);
        if !recipients.is_empty() {
            recipients[0].mint_share -= 1;
            let config_wrong_share = ProgramConfig::new(&mint, fees.clone(), recipients);
            assert!(config_wrong_share.is_err());
        }
    }
    let recipients = get_recipients(ProgramConfig::MAX_RECIPIENT_NUMBER as u8 + 1);
    let config_overflow = ProgramConfig::new(&mint, fees, recipients);
    assert!(config_overflow.is_err());
}

#[test]
fn api_config_bytes() {
    let mint = key(9);
    let fees = Fees { character: 1, pet: 2, emote: 3, tileset: 4, item: 5 };
    let recipients = vec![Recipient { address: key(1), mint_share: 100, transaction_share: 100 }];
    let config = ApiConfig::new(&mint, fees, recipients).unwrap();
    let bytes = config.try_to_vec();
    assert_eq!(bytes.len(), 1 + 32 + 40 + 4 + 34);
    assert_eq!(bytes[0], 1);
    assert_eq!(&bytes[1..33], &mint.0);
    assert_eq!(&bytes[33..41], &1u64.to_le_bytes());
    assert_eq!(&bytes[73..77], &1u32.to_le_bytes());
    assert_eq!(&bytes[77..109], &key(1).0);
    assert_eq!(&bytes[109..111], &[100, 100]);
}

#[test]
fn api_config_unpack_errors() {
    // the wrong length
    assert_eq!(ApiConfig::unpack(&[0u8; 10]), Err(ProgramErrorCode::InvalidAccountData));
    // an uninitialized state
    assert_eq!(ApiConfig::unpack(&[0u8; ApiConfig::LEN]), Err(ProgramErrorCode::UninitializedAccount));
    // a state byte that is no variant
    let mut bad = [0u8; ApiConfig::LEN];
    bad[0] = 2;
    assert_eq!(ApiConfig::unpack(&bad), Err(ProgramErrorCode::BorshIoError));
    // more recipients than the bytes hold
    let mut long = [0u8; ApiConfig::LEN];
    long[0] = 1;
    long[73] = 9;
    assert_eq!(ApiConfig::unpack(&long), Err(ProgramErrorCode::BorshIoError));
}

#[test]
fn config_errors() {
    let mint = key(3);
    // more than three recipients: the API's error number, then the program's
    let four = get_recipients(4);
    assert_eq!(
        ApiConfig::new(&mint, Fees::default(), four.clone()),
        Err(ProgramErrorCode::Custom(10_001))
    );
    assert_eq!(ProgramConfig::new(&mint, Fees::default(), four), Err(ProgramErrorCode::Custom(6)));
    // shares that do not add up to 100
    let mut two = get_recipients(2);
    two[1].mint_share += 1;
    assert_eq!(
        ApiConfig::new(&mint, Fees::default(), two.clone()),
        Err(ProgramErrorCode::Custom(10_000))
    );
    assert_eq!(ProgramConfig::new(&mint, Fees::default(), two), Err(ProgramErrorCode::Custom(5)));
    // a buffer of the wrong size
    let config = ProgramConfig::default();
    let mut small = [0u8; 10];
    assert_eq!(ProgramConfig::pack(config, &mut small), Err(ProgramErrorCode::InvalidAccountData));
}

#[test]
fn config_checks_both_share_sums() {
    let mint = key(3);
    // transaction shares that do not add up to 100
    let half = vec![Recipient { address: key(1), mint_share: 100, transaction_share: 50 }];
    assert_eq!(
        ApiConfig::new(&mint, Fees::default(), half.clone()),
        Err(ProgramErrorCode::Custom(10_000))
    );
    assert_eq!(ProgramConfig::new(&mint, Fees::default(), half), Err(ProgramErrorCode::Custom(5)));
    // sums past 255 are refused, not wrapped to 100
    let wrapping = vec![
        Recipient { address: key(1), mint_share: 200, transaction_share: 200 },
        Recipient { address: key(2), mint_share: 156, transaction_share: 156 },
    ];
    assert_eq!(
        ApiConfig::new(&mint, Fees::default(), wrapping.clone()),
        Err(ProgramErrorCode::Custom(10_000))
    );
    assert_eq!(ProgramConfig::new(&mint, Fees::default(), wrapping), Err(ProgramErrorCode::Custom(5)));
    // both sums 100
    let both = vec![
        Recipient { address: key(1), mint_share: 40, transaction_share: 90 },
        Recipient { address: key(2), mint_share: 60, transaction_share: 10 },
    ];
    assert!(ApiConfig::new(&mint, Fees::default(), both.clone()).is_ok());
    assert!(ProgramConfig::new(&mint, Fees::default(), both).is_ok());
}
