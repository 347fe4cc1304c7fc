use solzempic::{
    parse_params, route, AccountHandle, AccountRefMut, Address, Framework, Instruction,
    InstructionParams, Loadable, Pod, ProgramError, Signer, ValidatedAccount,
};

const PROGRAM: Address = [7u8; 32];

struct Program;

impl Framework for Program {
    const PROGRAM_ID: Address = PROGRAM;
}

#[derive(Clone, Copy, Debug, PartialEq)]
struct Wallet {
    discriminator: [u8; 8],
    balance: u64,
}

impl Pod for Wallet {
    const LEN: usize = 16;

    fn from_bytes(bytes: &[u8]) -> Self {
        let mut discriminator = [0u8; 8];
        discriminator.copy_from_slice(&bytes[0..8]);
        let mut balance = [0u8; 8];
        balance.copy_from_slice(&bytes[8..16]);
        Wallet { discriminator, balance: u64::from_le_bytes(balance) }
    }

    fn to_bytes(&self) -> Vec<u8> {
        let mut out = Vec::new();
        out.extend_from_slice(&self.discriminator);
        out.extend_from_slice(&self.balance.to_le_bytes());
        out
    }
}

impl Loadable for Wallet {
    const DISCRIMINATOR: u8 = 1;
}

#[derive(Clone, Copy, Debug, PartialEq)]
struct TransferParams {
    amount: u64,
}

impl Pod for TransferParams {
    const LEN: usize = 8;

    fn from_bytes(bytes: &[u8]) -> Self {
        let mut amount = [0u8; 8];
        amount.copy_from_slice(bytes);
        TransferParams { amount: u64::from_le_bytes(amount) }
    }

    fn to_bytes(&self) -> Vec<u8> {
        self.amount.to_le_bytes().to_vec()
    }
}

/// A parameter block of mixed widths, with its padding written out.
#[derive(Clone, Copy, Debug, PartialEq)]
struct OrderParams {
    order_id: u64,
    price: u32,
    lots: u16,
    side: u8,
    flags: u8,
    expiry: i64,
}

impl Pod for OrderParams {
    const LEN: usize = 24;

    fn from_bytes(bytes: &[u8]) -> Self {
        OrderParams {
            order_id: u64::from_le_bytes(bytes[0..8].try_into().unwrap()),
            price: u32::from_le_bytes(bytes[8..12].try_into().unwrap()),
            lots: u16::from_le_bytes(bytes[12..14].try_into().unwrap()),
            side: bytes[14],
            flags: bytes[15],
            expiry: i64::from_le_bytes(bytes[16..24].try_into().unwrap()),
        }
    }

    fn to_bytes(&self) -> Vec<u8> {
        let mut out = Vec::new();
        out.extend_from_slice(&self.order_id.to_le_bytes());
        out.extend_from_slice(&self.price.to_le_bytes());
        out.extend_from_slice(&self.lots.to_le_bytes());
        out.push(self.side);
        out.push(self.flags);
        out.extend_from_slice(&self.expiry.to_le_bytes());
        out
    }
}

struct Transfer<'a> {
    from: AccountRefMut<'a, Wallet, Program>,
    to: AccountRefMut<'a, Wallet, Program>,
    owner: Signer<'a>,
}

impl InstructionParams for Transfer<'_> {
    type Params = TransferParams;
}

impl<'a> Instruction<'a> for Transfer<'a> {
    fn build(accounts: &'a mut [AccountHandle], _params: &TransferParams) -> Result<Self, ProgramError> {
        let [from, to, owner, ..] = accounts else {
            return Err(ProgramError::NotEnoughAccountKeys);
        };
        Ok(Transfer {
            from: AccountRefMut::load(from)?,
            to: AccountRefMut::load(to)?,
            owner: Signer::wrap(owner)?,
        })
    }

    fn validate(&self, program_id: &Address, params: &TransferParams) -> Result<(), ProgramError> {
        if *program_id != PROGRAM {
            return Err(ProgramError::IncorrectProgramId);
        }
        if self.owner.key() == self.to.address() {
            return Err(ProgramError::Custom(1));
        }
        if self.from.get().balance < params.amount {
            return Err(ProgramError::InsufficientFunds);
        }
        Ok(())
    }

    fn execute(&mut self, _program_id: &Address, params: &TransferParams) -> Result<(), ProgramError> {
        let amount = params.amount;
        self.from.get_mut(|mut w| {
            w.balance -= amount;
            w
        });
        self.to.get_mut(|mut w| {
            w.balance += amount;
            w
        });
        Ok(())
    }
}

fn wallet(id: u8, balance: u64, writable: bool) -> AccountHandle {
    let mut data = vec![0u8; 16];
    data[0] = 1;
    data[8..16].copy_from_slice(&balance.to_le_bytes());
    AccountHandle::new([id; 32], PROGRAM, false, writable, 0, data)
}

fn signer(id: u8, signed: bool) -> AccountHandle {
    AccountHandle::new([id; 32], [0u8; 32], signed, false, 0, vec![])
}

fn transfer_buffer(amount: u64) -> Vec<u8> {
    let mut data = vec![2u8];
    data.extend_from_slice(&amount.to_le_bytes());
    data
}

#[test]
fn route_selects_the_handler_of_the_first_byte() {
    // Initialize = 0, Transfer = 2
    let registered = [0u8, 2];
    let data = transfer_buffer(1000);
    let (handler, params) = route(&registered, &data).unwrap();
    assert_eq!(handler, 1);
    assert_eq!(params, &data[1..]);
    let params: TransferParams = parse_params(params).unwrap();
    assert_eq!(params.amount, 1000);

    let (handler, params) = route(&registered, &[0u8]).unwrap();
    assert_eq!(handler, 0);
    assert!(params.is_empty());
}

#[test]
fn route_refuses_what_is_not_registered() {
    let data = transfer_buffer(1000);
    assert_eq!(route(&[0u8], &data).err(), Some(ProgramError::InvalidInstructionData));
    assert_eq!(route(&[0u8, 1, 3], &data).err(), Some(ProgramError::InvalidInstructionData));
    assert_eq!(route(&[], &data).err(), Some(ProgramError::InvalidInstructionData));
    assert_eq!(route(&[0u8, 2], &[]).err(), Some(ProgramError::InvalidInstructionData));
}

#[test]
fn route_takes_the_first_of_two_registrations() {
    assert_eq!(route(&[5u8, 2, 2], &[2u8, 1]).unwrap().0, 1);
}

#[test]
fn parse_params_needs_the_whole_block() {
    for len in 0..8usize {
        let r: Result<TransferParams, ProgramError> = parse_params(&vec![1u8; len]);
        assert_eq!(r.err(), Some(ProgramError::InvalidInstructionData));
    }
    let r: Result<TransferParams, ProgramError> = parse_params(&[232, 3, 0, 0, 0, 0, 0, 0, 77]);
    assert_eq!(r, Ok(TransferParams { amount: 1000 }));
}

#[test]
fn parameter_block_round_trip() {
    let params = OrderParams {
        order_id: 0x0102_0304_0506_0708,
        price: 0xA1B2_C3D4,
        lots: 0xBEEF,
        side: 1,
        flags: 0x80,
        expiry: -2,
    };
    let bytes = params.to_bytes();
    assert_eq!(bytes.len(), OrderParams::LEN);
    assert_eq!(
        bytes,
        vec![
            8, 7, 6, 5, 4, 3, 2, 1, 0xD4, 0xC3, 0xB2, 0xA1, 0xEF, 0xBE, 1, 0x80, 0xFE, 0xFF,
            0xFF, 0xFF, 0xFF, 0xFF, 0xFF, 0xFF
        ]
    );
    assert_eq!(parse_params::<OrderParams>(&bytes), Ok(params));
    let mut longer = bytes.clone();
    longer.extend_from_slice(&[9, 9, 9]);
    assert_eq!(parse_params::<OrderParams>(&longer), Ok(params));
}

#[test]
fn transfer_moves_the_amount() {
    let mut accounts = vec![wallet(1, 1500, true), wallet(2, 10, true), signer(3, true)];
    let data = transfer_buffer(1000);
    let (handler, params) = route(&[0u8, 2], &data).unwrap();
    assert_eq!(handler, 1);
    assert_eq!(Transfer::process(&PROGRAM, &mut accounts, params), Ok(()));
    assert_eq!(&accounts[0].data[8..16], &500u64.to_le_bytes());
    assert_eq!(&accounts[1].data[8..16], &1010u64.to_le_bytes());
}

#[test]
fn transfer_fails_in_validate_and_changes_nothing() {
    let mut accounts = vec![wallet(1, 500, true), wallet(2, 10, true), signer(3, true)];
    let before: Vec<Vec<u8>> = accounts.iter().map(|a| a.data.clone()).collect();
    let data = transfer_buffer(1000);
    let (_, params) = route(&[0u8, 2], &data).unwrap();
    // Build succeeds on these accounts, so the failure is that of validate.
    {
        let mut probe = vec![wallet(1, 500, true), wallet(2, 10, true), signer(3, true)];
        assert!(Transfer::build(&mut probe, &TransferParams { amount: 1000 }).is_ok());
    }
    assert_eq!(
        Transfer::process(&PROGRAM, &mut accounts, params),
        Err(ProgramError::InsufficientFunds)
    );
    let after: Vec<Vec<u8>> = accounts.iter().map(|a| a.data.clone()).collect();
    assert_eq!(before, after);
}

#[test]
fn a_failure_of_build_comes_before_validate() {
    // The balance is too small as well, but the missing signature is found in build.
    let mut accounts = vec![wallet(1, 500, true), wallet(2, 10, true), signer(3, false)];
    let data = transfer_buffer(1000);
    assert_eq!(
        Transfer::process(&PROGRAM, &mut accounts, &data[1..]),
        Err(ProgramError::MissingRequiredSignature)
    );
    let mut accounts = vec![wallet(1, 500, false), wallet(2, 10, true), signer(3, false)];
    assert_eq!(
        Transfer::process(&PROGRAM, &mut accounts, &data[1..]),
        Err(ProgramError::InvalidAccountData)
    );
    let mut accounts = vec![wallet(1, 500, true)];
    assert_eq!(
        Transfer::process(&PROGRAM, &mut accounts, &data[1..]),
        Err(ProgramError::NotEnoughAccountKeys)
    );
}

#[test]
fn short_parameters_fail_before_build() {
    // No account at all: build would fail with another error.
    let mut accounts: Vec<AccountHandle> = vec![];
    assert_eq!(
        Transfer::process(&PROGRAM, &mut accounts, &[1, 2, 3]),
        Err(ProgramError::InvalidInstructionData)
    );
}
