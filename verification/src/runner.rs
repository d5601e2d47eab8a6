//! Running TAs from the command line: what to run, and which commands to give it.

use vstd::prelude::*;

use crate::base64_data::{base64_decoded, decode_base64};
use crate::codes::{TeeLogin, TeeParamType, UteeEntryFunc};
use crate::msg_update::{output_of, Output};
use crate::params::{
    OwnedParam, TeeIdentity, UteeParamOwned, UteeParams, TEE_NUM_PARAMS,
};
use crate::uuid::TeeUuid;

verus! {

/// How system calls are intercepted.
#[derive(Clone, Copy, PartialEq, Eq, Debug, Structural)]
pub enum InterceptionBackend {
    /// By seccomp.
    Seccomp,
    /// By rewriting them beforehand.
    Rewriter,
}

/// The command line.
#[derive(Clone, Debug)]
pub struct CliArgs {
    /// The loader of TAs.
    pub ldelf: String,
    /// The TA.
    pub program: String,
    /// The file with the commands for the TA.
    pub command_sequence: String,
    /// Whether unstable options are allowed.
    pub unstable: bool,
    /// Whether system calls are rewritten in the binaries before they are run.
    pub rewrite_syscalls: bool,
    /// How system calls are intercepted.
    pub interception_backend: InterceptionBackend,
}

/// What to run.
#[derive(Clone, Copy, PartialEq, Eq, Debug, Structural)]
pub struct RunPlan {
    /// Whether system calls are rewritten in both binaries.
    pub rewrite: bool,
    /// Whether system calls are intercepted by seccomp.
    pub seccomp: bool,
    /// Whether a session is only opened and closed; otherwise the commands are those in
    /// the file.
    pub default_commands: bool,
}

/// What the command line asks for. Without a file of commands a session is only opened
/// and closed.
pub fn plan_run(cli_args: &CliArgs) -> (r: RunPlan)
    ensures
        r.rewrite == cli_args.rewrite_syscalls,
        r.seccomp == (cli_args.interception_backend == InterceptionBackend::Seccomp),
        r.default_commands == (cli_args.command_sequence@.len() == 0),
{
    let seccomp: bool = match cli_args.interception_backend {
        InterceptionBackend::Seccomp => true,
        InterceptionBackend::Rewriter => false,
    };
    RunPlan {
        rewrite: cli_args.rewrite_syscalls,
        seccomp,
        default_commands: cli_args.command_sequence.as_str().is_empty(),
    }
}

/// The entry points that are called when there is no file of commands, in order. Only
/// opening a session runs the TA.
pub fn default_commands() -> (r: [UteeEntryFunc; 2])
    ensures
        r@ == seq![UteeEntryFunc::OpenSession, UteeEntryFunc::CloseSession],
{
    let r = [UteeEntryFunc::OpenSession, UteeEntryFunc::CloseSession];
    assert(r@ =~= seq![UteeEntryFunc::OpenSession, UteeEntryFunc::CloseSession]);
    r
}

/// The entry points by the names that a file of commands uses.
#[derive(Clone, Copy, PartialEq, Eq, Debug, Structural)]
pub enum TaEntryFunc {
    OpenSession,
    CloseSession,
    InvokeCommand,
}

impl TaEntryFunc {
    /// The entry point.
    pub open spec fn entry(self) -> UteeEntryFunc {
        match self {
            TaEntryFunc::OpenSession => UteeEntryFunc::OpenSession,
            TaEntryFunc::CloseSession => UteeEntryFunc::CloseSession,
            TaEntryFunc::InvokeCommand => UteeEntryFunc::InvokeCommand,
        }
    }

    /// The entry point.
    pub fn to_entry_func(self) -> (r: UteeEntryFunc)
        ensures
            r == self.entry(),
    {
        match self {
            TaEntryFunc::OpenSession => UteeEntryFunc::OpenSession,
            TaEntryFunc::CloseSession => UteeEntryFunc::CloseSession,
            TaEntryFunc::InvokeCommand => UteeEntryFunc::InvokeCommand,
        }
    }
}

/// Login types by the names that a file of commands uses.
#[derive(Clone, Copy, PartialEq, Eq, Debug, Structural)]
pub enum ClientLoginJson {
    Public,
    User,
    Group,
    Application,
    ApplicationUser,
    ApplicationGroup,
    ReeKernel,
    TrustedApp,
}

impl Default for ClientLoginJson {
    fn default() -> (r: Self)
        ensures
            r == ClientLoginJson::User,
    {
        ClientLoginJson::User
    }
}

/// The login type that a name stands for.
pub open spec fn login_named(login: ClientLoginJson) -> TeeLogin {
    match login {
        ClientLoginJson::Public => TeeLogin::Public,
        ClientLoginJson::User => TeeLogin::User,
        ClientLoginJson::Group => TeeLogin::Group,
        ClientLoginJson::Application => TeeLogin::Application,
        ClientLoginJson::ApplicationUser => TeeLogin::ApplicationUser,
        ClientLoginJson::ApplicationGroup => TeeLogin::ApplicationGroup,
        ClientLoginJson::ReeKernel => TeeLogin::ReeKernel,
        ClientLoginJson::TrustedApp => TeeLogin::TrustedApp,
    }
}

impl From<ClientLoginJson> for TeeLogin {
    fn from(login: ClientLoginJson) -> (r: TeeLogin) {
        match login {
            ClientLoginJson::Public => TeeLogin::Public,
            ClientLoginJson::User => TeeLogin::User,
            ClientLoginJson::Group => TeeLogin::Group,
            ClientLoginJson::Application => TeeLogin::Application,
            ClientLoginJson::ApplicationUser => TeeLogin::ApplicationUser,
            ClientLoginJson::ApplicationGroup => TeeLogin::ApplicationGroup,
            ClientLoginJson::ReeKernel => TeeLogin::ReeKernel,
            ClientLoginJson::TrustedApp => TeeLogin::TrustedApp,
        }
    }
}

impl vstd::std_specs::convert::FromSpecImpl<ClientLoginJson> for TeeLogin {
    open spec fn obeys_from_spec() -> bool {
        true
    }

    open spec fn from_spec(login: ClientLoginJson) -> TeeLogin {
        login_named(login)
    }
}

/// `text` without its dashes.
pub open spec fn without_dashes(text: Seq<u8>) -> Seq<u8>
    decreases text.len(),
{
    if text.len() == 0 {
        Seq::empty()
    } else if text.last() == 0x2d {
        without_dashes(text.drop_last())
    } else {
        without_dashes(text.drop_last()).push(text.last())
    }
}

/// The value of a hexadecimal digit.
pub open spec fn hex_value(digit: u8) -> Option<int> {
    if 0x30 <= digit <= 0x39 {
        Some(digit - 0x30)
    } else if 0x61 <= digit <= 0x66 {
        Some(digit - 0x61 + 10)
    } else if 0x41 <= digit <= 0x46 {
        Some(digit - 0x41 + 10)
    } else {
        None
    }
}

/// The value of two characters: two hexadecimal digits, or a plus sign and one.
pub open spec fn byte_value(a: u8, b: u8) -> Option<int> {
    if a == 0x2b {
        hex_value(b)
    } else {
        match (hex_value(a), hex_value(b)) {
            (Some(x), Some(y)) => Some(16 * x + y),
            _ => None,
        }
    }
}

/// `text` is that of an identifier: besides any number of dashes it has 32 characters,
/// which write 16 bytes in pairs. A pair is two hexadecimal digits, or a plus sign and
/// one.
pub open spec fn is_uuid_text(text: Seq<u8>) -> bool {
    let digits = without_dashes(text);
    &&& digits.len() == 32
    &&& forall|i: int| 0 <= i < 16 ==> #[trigger] byte_of(digits, i) is Some
}

/// Byte `i` of the identifier that `digits` write.
pub open spec fn byte_of(digits: Seq<u8>, i: int) -> Option<int> {
    byte_value(digits[2 * i], digits[2 * i + 1])
}

/// The bytes of the identifier that `text` writes.
pub open spec fn uuid_bytes(text: Seq<u8>) -> Seq<u8> {
    Seq::new(16, |i: int| byte_of(without_dashes(text), i)->0 as u8)
}

fn hex_digit(digit: u8) -> (r: Option<u8>)
    ensures
        match r {
            Some(v) => hex_value(digit) == Some(v as int) && v < 16,
            None => hex_value(digit) is None,
        },
{
    if digit >= 0x30 && digit <= 0x39 {
        Some(digit - 0x30)
    } else if digit >= 0x61 && digit <= 0x66 {
        Some(digit - 0x61 + 10)
    } else if digit >= 0x41 && digit <= 0x46 {
        Some(digit - 0x41 + 10)
    } else {
        None
    }
}

fn hex_byte(a: u8, b: u8) -> (r: Option<u8>)
    ensures
        match r {
            Some(v) => byte_value(a, b) == Some(v as int),
            None => byte_value(a, b) is None,
        },
{
    if a == 0x2b {
        return hex_digit(b);
    }
    match (hex_digit(a), hex_digit(b)) {
        (Some(x), Some(y)) => Some(16 * x + y),
        _ => None,
    }
}

/// Parses an identifier, or `None` if `s` does not write one.
pub fn parse_uuid(s: &str) -> (r: Option<TeeUuid>)
    ensures
        is_uuid_text(vstd::utf8::encode_utf8(s@)) ==> (r matches Some(uuid) && uuid.has_bytes(
            uuid_bytes(vstd::utf8::encode_utf8(s@)),
        )),
        !is_uuid_text(vstd::utf8::encode_utf8(s@)) ==> r is None,
{
    let text = s.as_bytes();
    let mut hex: Vec<u8> = Vec::new();
    let mut k: usize = 0;
    while k < text.len()
        invariant
            k <= text.len(),
            hex@ == without_dashes(text@.take(k as int)),
        decreases text.len() - k,
    {
        assert(text@.take(k + 1).drop_last() =~= text@.take(k as int));
        if text[k] != 0x2d {
            hex.push(text[k]);
        }
        k = k + 1;
    }
    assert(text@.take(k as int) =~= text@);
    if hex.len() != 32 {
        return None;
    }
    let ghost digits = hex@;
    let mut bytes: [u8; 16] = [0, 0, 0, 0, 0, 0, 0, 0, 0, 0, 0, 0, 0, 0, 0, 0];
    let mut i: usize = 0;
    while i < 16
        invariant
            i <= 16,
            hex@ == digits,
            digits.len() == 32,
            digits == without_dashes(vstd::utf8::encode_utf8(s@)),
            forall|j: int|
                0 <= j < i ==> #[trigger] byte_of(digits, j) is Some && bytes@[j] == byte_of(
                    digits,
                    j,
                )->0,
        decreases 16 - i,
    {
        match hex_byte(hex[2 * i], hex[2 * i + 1]) {
            Some(byte) => {
                assert(byte_of(digits, i as int) == Some(byte as int));
                bytes[i] = byte;
            },
            None => {
                assert(byte_of(digits, i as int) is None);
                return None;
            },
        }
        i = i + 1;
    }
    assert(bytes@ =~= uuid_bytes(vstd::utf8::encode_utf8(s@)));
    Some(TeeUuid::from_bytes(bytes))
}

/// The identity that a client presents, by the names that a file of commands uses.
#[derive(Clone, Debug)]
pub struct ClientIdentityJson {
    pub login: ClientLoginJson,
    pub uuid: Option<String>,
}

impl ClientIdentityJson {
    /// The identifier is one, if there is one.
    pub open spec fn names_client(self) -> bool {
        self.uuid matches Some(text) ==> is_uuid_text(vstd::utf8::encode_utf8(text@))
    }

    /// `identity` is the one that is presented. Without an identifier it has that of
    /// nobody.
    pub open spec fn presents(self, identity: TeeIdentity) -> bool {
        &&& identity.login == login_named(self.login)
        &&& match self.uuid {
            Some(text) => identity.uuid.has_bytes(uuid_bytes(vstd::utf8::encode_utf8(text@))),
            None => identity.uuid.is_nil(),
        }
    }

    /// The identity that is presented, or `None` if its identifier is not one.
    pub fn to_tee_identity(&self) -> (r: Option<TeeIdentity>)
        ensures
            self.names_client() ==> (r matches Some(identity) && self.presents(identity)),
            !self.names_client() ==> r is None,
    {
        let uuid = match &self.uuid {
            Some(text) => match parse_uuid(text.as_str()) {
                Some(uuid) => uuid,
                None => {
                    return None;
                },
            },
            None => TeeUuid::nil(),
        };
        Some(TeeIdentity { login: TeeLogin::from(self.login), uuid })
    }
}

/// An argument of a command, data in base64.
#[derive(Clone, Debug)]
pub enum TaCommandParamsBase64 {
    ValueInput { value_a: u64, value_b: u64 },
    ValueOutput {  },
    ValueInout { value_a: u64, value_b: u64 },
    MemrefInput { data_base64: String },
    MemrefOutput { buffer_size: u64 },
    MemrefInout { data_base64: String, buffer_size: u64 },
}

impl TaCommandParamsBase64 {
    /// What the data of the argument decodes to; an argument without data has none.
    pub open spec fn data(self) -> Option<Seq<u8>> {
        match self {
            TaCommandParamsBase64::MemrefInput { data_base64 } => base64_decoded(
                vstd::utf8::encode_utf8(data_base64@),
            ),
            TaCommandParamsBase64::MemrefInout { data_base64, .. } => base64_decoded(
                vstd::utf8::encode_utf8(data_base64@),
            ),
            _ => Some(Seq::empty()),
        }
    }

    /// The buffer of the argument fits in memory and is not smaller than `data`.
    pub open spec fn holds(self, data: Seq<u8>) -> bool {
        match self {
            TaCommandParamsBase64::MemrefOutput { buffer_size } => buffer_size <= usize::MAX,
            TaCommandParamsBase64::MemrefInout { buffer_size, .. } => data.len() <= buffer_size
                <= usize::MAX,
            _ => true,
        }
    }

    /// The parameter that the argument with `data` stands for.
    pub open spec fn with_data(self, data: Seq<u8>) -> OwnedParam {
        match self {
            TaCommandParamsBase64::ValueInput { value_a, value_b } => OwnedParam::ValueInput {
                value_a,
                value_b,
            },
            TaCommandParamsBase64::ValueOutput {  } => OwnedParam::ValueOutput,
            TaCommandParamsBase64::ValueInout { value_a, value_b } => OwnedParam::ValueInout {
                value_a,
                value_b,
            },
            TaCommandParamsBase64::MemrefInput { .. } => OwnedParam::MemrefInput { data },
            TaCommandParamsBase64::MemrefOutput { buffer_size } => OwnedParam::MemrefOutput {
                buffer_size: buffer_size as usize,
            },
            TaCommandParamsBase64::MemrefInout { buffer_size, .. } => OwnedParam::MemrefInout {
                data,
                buffer_size: buffer_size as usize,
            },
        }
    }

    /// The argument stands for a parameter: its data is valid base64 and its buffer
    /// large enough for it.
    pub open spec fn stands(self) -> bool {
        self.data() is Some && self.holds(self.data()->0)
    }

    /// The data of the argument, or `None` if it is not valid base64.
    pub fn decoded_data(&self) -> (r: Option<Vec<u8>>)
        ensures
            match self.data() {
                Some(data) => r matches Some(bytes) && bytes@ == data,
                None => r is None,
            },
    {
        match self {
            TaCommandParamsBase64::MemrefInput { data_base64 } => decode_base64(
                data_base64.as_str(),
            ),
            TaCommandParamsBase64::MemrefInout { data_base64, .. } => decode_base64(
                data_base64.as_str(),
            ),
            _ => {
                let bytes: Vec<u8> = Vec::new();
                assert(bytes@ =~= Seq::<u8>::empty());
                Some(bytes)
            },
        }
    }

    /// The parameter that the argument with `data` stands for.
    pub fn utee_param_with(&self, data: Vec<u8>) -> (r: UteeParamOwned)
        requires
            self.holds(data@),
        ensures
            r@ == self.with_data(data@),
    {
        match self {
            TaCommandParamsBase64::ValueInput { value_a, value_b } => UteeParamOwned::ValueInput {
                value_a: *value_a,
                value_b: *value_b,
            },
            TaCommandParamsBase64::ValueOutput {  } => UteeParamOwned::ValueOutput,
            TaCommandParamsBase64::ValueInout { value_a, value_b } => UteeParamOwned::ValueInout {
                value_a: *value_a,
                value_b: *value_b,
            },
            TaCommandParamsBase64::MemrefInput { .. } => UteeParamOwned::MemrefInput { data },
            TaCommandParamsBase64::MemrefOutput { buffer_size } => UteeParamOwned::MemrefOutput {
                buffer_size: *buffer_size as usize,
            },
            TaCommandParamsBase64::MemrefInout { buffer_size, .. } => UteeParamOwned::MemrefInout {
                data,
                buffer_size: *buffer_size as usize,
            },
        }
    }

    fn buffer_holds(&self, data: &Vec<u8>) -> (r: bool)
        ensures
            r == self.holds(data@),
    {
        match self {
            TaCommandParamsBase64::MemrefOutput { buffer_size } => {
                *buffer_size <= usize::MAX as u64
            },
            TaCommandParamsBase64::MemrefInout { buffer_size, .. } => {
                *buffer_size <= usize::MAX as u64 && data.len() as u64 <= *buffer_size
            },
            _ => true,
        }
    }

    /// The parameter that the argument stands for.
    pub fn as_utee_params_owned(&self) -> (r: UteeParamOwned)
        requires
            self.stands(),
        ensures
            r@ == self.with_data(self.data()->0),
    {
        match self.decoded_data() {
            Some(data) => self.utee_param_with(data),
            None => UteeParamOwned::Empty,
        }
    }

    /// The parameter that the argument stands for, or `None` if it stands for none.
    pub fn try_as_utee_params_owned(&self) -> (r: Option<UteeParamOwned>)
        ensures
            match r {
                Some(param) => self.stands() && param@ == self.with_data(self.data()->0),
                None => !self.stands(),
            },
    {
        match self.decoded_data() {
            Some(data) => {
                if self.buffer_holds(&data) {
                    Some(self.as_utee_params_owned())
                } else {
                    None
                }
            },
            None => None,
        }
    }
}

/// A command for a TA: the entry point, the number of the command, up to four arguments
/// and, where a session is opened, the identity that the client presents.
#[derive(Clone, Debug)]
pub struct TaCommandBase64 {
    pub func_id: TaEntryFunc,
    pub cmd_id: u32,
    pub args: Vec<TaCommandParamsBase64>,
    pub client_identity: Option<ClientIdentityJson>,
}

/// What a command needs.
#[derive(Clone, Copy, PartialEq, Debug)]
pub enum CommandAction {
    /// Nothing: closing a session is not run, and no TA is loaded before a session is
    /// opened.
    Skip,
    /// Open a session for this client, load the TA and run the command in the session.
    OpenAndRun(TeeIdentity),
    /// Run the command in this session.
    RunIn(u32),
}

/// The session in which commands are run.
#[derive(Clone, Copy, PartialEq, Eq, Debug, Structural)]
pub struct CommandRunner {
    pub session_id: Option<u32>,
}

impl TaCommandBase64 {
    /// Parameter `i` that the TA is given.
    pub open spec fn param(self, i: int) -> OwnedParam {
        if 0 <= i < self.args@.len() {
            self.args@[i].with_data(self.args@[i].data()->0)
        } else {
            OwnedParam::Empty
        }
    }

    /// The parameters that the TA is given, or `None` if an argument stands for none or
    /// there are more than four.
    pub fn params(&self) -> (r: Option<[UteeParamOwned; 4]>)
        ensures
            match r {
                Some(params) => {
                    &&& self.args@.len() <= TEE_NUM_PARAMS
                    &&& forall|i: int|
                        0 <= i < self.args@.len() ==> (#[trigger] self.args@[i]).stands()
                    &&& forall|i: int| 0 <= i < 4 ==> (#[trigger] params[i])@ == self.param(i)
                },
                None => self.args@.len() > TEE_NUM_PARAMS || exists|i: int|
                    0 <= i < self.args@.len() && !(#[trigger] self.args@[i]).stands(),
            },
    {
        if self.args.len() > TEE_NUM_PARAMS {
            return None;
        }
        let mut params: [UteeParamOwned; 4] = [
            UteeParamOwned::Empty,
            UteeParamOwned::Empty,
            UteeParamOwned::Empty,
            UteeParamOwned::Empty,
        ];
        let mut i: usize = 0;
        while i < self.args.len()
            invariant
                i <= self.args.len(),
                self.args.len() <= 4,
                forall|j: int| 0 <= j < i ==> (#[trigger] self.args@[j]).stands(),
                forall|j: int|
                    0 <= j < 4 ==> (#[trigger] params[j])@ == (if j < i {
                        self.param(j)
                    } else {
                        OwnedParam::Empty
                    }),
            decreases self.args.len() - i,
        {
            match self.args[i].try_as_utee_params_owned() {
                Some(param) => {
                    params[i] = param;
                },
                None => {
                    assert(!self.args@[i as int].stands());
                    return None;
                },
            }
            i = i + 1;
        }
        Some(params)
    }
}

impl CommandRunner {
    /// No session is open.
    pub fn new() -> (r: Self)
        ensures
            r.session_id is None,
    {
        CommandRunner { session_id: None }
    }

    /// `action` is what `cmd` needs. A client that presents no identity is an ordinary
    /// user that is nobody in particular.
    pub open spec fn needs(self, cmd: TaCommandBase64, action: CommandAction) -> bool {
        match cmd.func_id {
            TaEntryFunc::CloseSession => action is Skip,
            TaEntryFunc::OpenSession => {
                &&& action matches CommandAction::OpenAndRun(identity)
                &&& match cmd.client_identity {
                    Some(client) => client.presents(identity),
                    None => identity.login == TeeLogin::User && identity.uuid.is_nil(),
                }
            },
            TaEntryFunc::InvokeCommand => match self.session_id {
                Some(session_id) => action == CommandAction::RunIn(session_id),
                None => action is Skip,
            },
        }
    }

    /// The command is to open a session for a client whose identifier is not one.
    pub open spec fn refuses(self, cmd: TaCommandBase64) -> bool {
        &&& cmd.func_id == TaEntryFunc::OpenSession
        &&& cmd.client_identity matches Some(client) && !client.names_client()
    }

    /// Decides what a command needs, or `None` if the identity that it presents is not
    /// one.
    pub fn action(&self, cmd: &TaCommandBase64) -> (r: Option<CommandAction>)
        ensures
            match r {
                Some(action) => !self.refuses(*cmd) && self.needs(*cmd, action),
                None => self.refuses(*cmd),
            },
    {
        match cmd.func_id {
            TaEntryFunc::CloseSession => Some(CommandAction::Skip),
            TaEntryFunc::OpenSession => match &cmd.client_identity {
                Some(client) => match client.to_tee_identity() {
                    Some(identity) => Some(CommandAction::OpenAndRun(identity)),
                    None => None,
                },
                None => Some(
                    CommandAction::OpenAndRun(
                        TeeIdentity { login: TeeLogin::User, uuid: TeeUuid::nil() },
                    ),
                ),
            },
            TaEntryFunc::InvokeCommand => match self.session_id {
                Some(session_id) => Some(CommandAction::RunIn(session_id)),
                None => Some(CommandAction::Skip),
            },
        }
    }

    /// Takes the session that was opened. Later commands run in it.
    pub fn opened(&mut self, session_id: u32)
        ensures
            final(self).session_id == Some(session_id),
    {
        self.session_id = Some(session_id);
    }
}

/// What a command returned in parameter `index`.
pub fn command_output(params: &UteeParams, index: usize) -> (r: Output)
    requires
        index < TEE_NUM_PARAMS,
    ensures
        r == output_of(*params, index as int),
{
    let a: u64 = params.vals[2 * index];
    let b: u64 = params.vals[2 * index + 1];
    match params.get_type(index) {
        Err(_) => Output::Unknown,
        Ok(param_type) => match param_type {
            TeeParamType::ValueOutput | TeeParamType::ValueInout => Output::Values(a, b),
            TeeParamType::MemrefOutput | TeeParamType::MemrefInout => Output::Memory(a, b),
            _ => Output::Nothing,
        },
    }
}

/// How much of returned data is shown.
pub const PREVIEW_BYTES: usize = 16;

/// The part of returned data that is shown.
#[derive(Clone, Debug, PartialEq, Eq)]
pub enum Preview {
    /// There is no data.
    Nothing,
    /// All of it.
    Whole(Vec<u8>),
    /// The beginning, and how many bytes there are.
    Head(Vec<u8>, usize),
}

/// Decides which part of returned data is shown: all of it if it is short, else its
/// beginning.
pub fn preview(data: &Vec<u8>) -> (r: Preview)
    ensures
        match r {
            Preview::Nothing => data@.len() == 0,
            Preview::Whole(bytes) => 0 < data@.len() < PREVIEW_BYTES && bytes@ == data@,
            Preview::Head(bytes, total) => {
                &&& data@.len() >= PREVIEW_BYTES
                &&& bytes@ == data@.take(PREVIEW_BYTES as int)
                &&& total == data@.len()
            },
        },
{
    if data.len() == 0 {
        return Preview::Nothing;
    }
    let n: usize = if data.len() < PREVIEW_BYTES {
        data.len()
    } else {
        PREVIEW_BYTES
    };
    let mut bytes: Vec<u8> = Vec::new();
    let mut i: usize = 0;
    while i < n
        invariant
            i <= n <= data.len(),
            bytes@ == data@.take(i as int),
        decreases n - i,
    {
        bytes.push(data[i]);
        assert(data@.take(i + 1) =~= data@.take(i as int).push(data@[i as int]));
        i = i + 1;
    }
    if data.len() < PREVIEW_BYTES {
        assert(data@.take(n as int) =~= data@);
        Preview::Whole(bytes)
    } else {
        Preview::Head(bytes, data.len())
    }
}

/// Commands that are invoked after a session was opened run in that session, until
/// another one is opened.
pub proof fn law_commands_run_in_the_open_session(
    runner: CommandRunner,
    session_id: u32,
    cmd: TaCommandBase64,
    action: CommandAction,
)
    requires
        runner.session_id == Some(session_id),
        cmd.func_id == TaEntryFunc::InvokeCommand,
        runner.needs(cmd, action),
    ensures
        action == CommandAction::RunIn(session_id),
{
}

/// What a command returned in a parameter is told by the four bits of its type: values
/// for 2 and 3, memory for 6 and 7, nothing for 0, 1 and 5. Other types are unknown. The
/// words are those of the parameter.
pub proof fn law_command_outputs_by_their_bits(params: UteeParams, index: usize, r: Output)
    requires
        index < 4,
        call_ensures(command_output, (&params, index), r),
    ensures
        ({
            let bits = (params.types.bits >> ((4 * index) as u64)) & 0xf;
            let a = params.vals@[2 * index];
            let b = params.vals@[2 * index + 1];
            &&& r == Output::Values(a, b) <==> bits == 2 || bits == 3
            &&& r == Output::Memory(a, b) <==> bits == 6 || bits == 7
            &&& r is Nothing <==> bits == 0 || bits == 1 || bits == 5
            &&& r is Unknown <==> bits == 4 || bits > 7
        }),
{
    assert(params.vals[2 * index] == params.vals@[2 * index]);
    assert(params.vals[2 * index + 1] == params.vals@[2 * index + 1]);
}

/// The command line asks for what it says; without a file of commands a session is opened
/// and closed.
pub proof fn law_what_is_run(cli_args: CliArgs, r: RunPlan, commands: [UteeEntryFunc; 2])
    requires
        call_ensures(plan_run, (&cli_args,), r),
        call_ensures(default_commands, (), commands),
    ensures
        r.rewrite <==> cli_args.rewrite_syscalls,
        r.seccomp <==> cli_args.interception_backend is Seccomp,
        !r.seccomp <==> cli_args.interception_backend is Rewriter,
        r.default_commands <==> cli_args.command_sequence@.len() == 0,
        commands@[0] is OpenSession,
        commands@[1] is CloseSession,
{
}

/// The names in a file of commands stand for the entry points and the login types of the
/// same names. A login that is left out is that of a user.
pub proof fn law_names_in_commands(
    func: TaEntryFunc,
    entry: UteeEntryFunc,
    login: ClientLoginJson,
    tee: TeeLogin,
    left_out: ClientLoginJson,
)
    requires
        call_ensures(TaEntryFunc::to_entry_func, (func,), entry),
        call_ensures(<TeeLogin as From<ClientLoginJson>>::from, (login,), tee),
        call_ensures(<ClientLoginJson as Default>::default, (), left_out),
    ensures
        entry is OpenSession <==> func is OpenSession,
        entry is CloseSession <==> func is CloseSession,
        entry is InvokeCommand <==> func is InvokeCommand,
        tee is Public <==> login is Public,
        tee is User <==> login is User,
        tee is Group <==> login is Group,
        tee is Application <==> login is Application,
        tee is ApplicationUser <==> login is ApplicationUser,
        tee is ApplicationGroup <==> login is ApplicationGroup,
        tee is ReeKernel <==> login is ReeKernel,
        tee is TrustedApp <==> login is TrustedApp,
        left_out is User,
{
}

/// The character `c` writes the number `v` as one hexadecimal digit.
pub open spec fn digit_writes(c: u8, v: int) -> bool {
    &&& 0 <= v < 16
    &&& v < 10 ==> c == 0x30 + v
    &&& v >= 10 ==> c == 0x57 + v || c == 0x37 + v
}

/// The characters `a` and `b` write the number `v`: as two hexadecimal digits, or as a
/// plus sign and one.
pub open spec fn pair_writes(a: u8, b: u8, v: int) -> bool {
    ||| digit_writes(a, v / 16) && digit_writes(b, v % 16)
    ||| a == 0x2b && digit_writes(b, v)
}

proof fn lemma_pairs(a: u8, b: u8, v: u8)
    ensures
        pair_writes(a, b, v as int) ==> byte_value(a, b) == Some(v as int),
        byte_value(a, b) matches Some(x) ==> 0 <= x < 256 && pair_writes(a, b, x),
{
}

proof fn lemma_dashes_are_filtered(text: Seq<u8>)
    ensures
        without_dashes(text) == text.filter(|b: u8| b != 0x2d),
    decreases text.len(),
{
    reveal(Seq::filter);
    if text.len() > 0 {
        lemma_dashes_are_filtered(text.drop_last());
    }
}

/// A text whose characters other than dashes are 32 that write 16 numbers in pairs is
/// read as the identifier with those bytes, wherever the dashes stand.
pub proof fn law_uuid_text_is_read(s: &str, bytes: Seq<u8>, r: Option<TeeUuid>)
    requires
        call_ensures(parse_uuid, (s,), r),
        bytes.len() == 16,
        ({
            let digits = vstd::utf8::encode_utf8(s@).filter(|b: u8| b != 0x2d);
            &&& digits.len() == 32
            &&& forall|i: int|
                0 <= i < 16 ==> pair_writes(
                    digits[2 * i],
                    digits[2 * i + 1],
                    #[trigger] bytes[i] as int,
                )
        }),
    ensures
        r matches Some(uuid) && {
            &&& uuid.time_low == bytes[0] * 0x100_0000 + bytes[1] * 0x1_0000 + bytes[2] * 0x100
                + bytes[3]
            &&& uuid.time_mid == bytes[4] * 0x100 + bytes[5]
            &&& uuid.time_hi_and_version == bytes[6] * 0x100 + bytes[7]
            &&& uuid.clock_seq_and_node@ == bytes.subrange(8, 16)
        },
{
    let text = vstd::utf8::encode_utf8(s@);
    lemma_dashes_are_filtered(text);
    let digits = without_dashes(text);
    assert forall|i: int| 0 <= i < 16 implies #[trigger] byte_of(digits, i) == Some(
        bytes[i] as int,
    ) by {
        lemma_pairs(digits[2 * i], digits[2 * i + 1], bytes[i]);
    }
    assert(uuid_bytes(text) =~= bytes);
}

/// A text is refused if it has not 32 characters other than dashes, or if a pair of them
/// writes no number.
pub proof fn law_other_texts_are_refused(s: &str, i: int, r: Option<TeeUuid>)
    requires
        call_ensures(parse_uuid, (s,), r),
        ({
            let digits = vstd::utf8::encode_utf8(s@).filter(|b: u8| b != 0x2d);
            ||| digits.len() != 32
            ||| 0 <= i < 16 && forall|v: int|
                0 <= v < 256 ==> !#[trigger] pair_writes(digits[2 * i], digits[2 * i + 1], v)
        }),
    ensures
        r is None,
{
    let text = vstd::utf8::encode_utf8(s@);
    lemma_dashes_are_filtered(text);
    let digits = without_dashes(text);
    if digits.len() == 32 {
        lemma_pairs(digits[2 * i], digits[2 * i + 1], 0);
        assert(byte_of(digits, i) is None);
    }
}

/// An identity is presented with its login and the identifier that its text is read as;
/// it is refused where the text is. Without a text the identifier has only zeros.
pub proof fn law_identity_is_presented(
    client: ClientIdentityJson,
    r: Option<TeeIdentity>,
    login: TeeLogin,
    text: &str,
    parsed: Option<TeeUuid>,
)
    requires
        call_ensures(ClientIdentityJson::to_tee_identity, (&client,), r),
        call_ensures(<TeeLogin as From<ClientLoginJson>>::from, (client.login,), login),
        client.uuid matches Some(t) ==> t@ == text@,
        call_ensures(parse_uuid, (text,), parsed),
    ensures
        r matches Some(identity) ==> identity.login == login,
        client.uuid is Some ==> {
            &&& r is Some <==> parsed is Some
            &&& r matches Some(identity) ==> {
                &&& identity.uuid.time_low == parsed->0.time_low
                &&& identity.uuid.time_mid == parsed->0.time_mid
                &&& identity.uuid.time_hi_and_version == parsed->0.time_hi_and_version
                &&& identity.uuid.clock_seq_and_node@ == parsed->0.clock_seq_and_node@
            }
        },
        client.uuid is None ==> (r matches Some(identity) && {
            &&& identity.uuid.time_low == 0
            &&& identity.uuid.time_mid == 0
            &&& identity.uuid.time_hi_and_version == 0
            &&& forall|i: int| 0 <= i < 8 ==> #[trigger] identity.uuid.clock_seq_and_node@[i] == 0
        }),
{
}

/// An argument of values becomes a parameter of the same kind with the same values; one of
/// memory becomes a parameter of the same kind with the data and the size of its buffer.
pub proof fn law_arguments_become_parameters(
    arg: TaCommandParamsBase64,
    data: Vec<u8>,
    r: UteeParamOwned,
)
    requires
        call_ensures(TaCommandParamsBase64::utee_param_with, (&arg, data), r),
        match arg {
            TaCommandParamsBase64::MemrefOutput { buffer_size } => buffer_size <= usize::MAX,
            TaCommandParamsBase64::MemrefInout { buffer_size, .. } => data@.len() <= buffer_size
                <= usize::MAX,
            _ => true,
        },
    ensures
        arg matches TaCommandParamsBase64::ValueInput { value_a, value_b } ==> r
            == (UteeParamOwned::ValueInput { value_a, value_b }),
        arg matches TaCommandParamsBase64::ValueOutput {  } ==> r is ValueOutput,
        arg matches TaCommandParamsBase64::ValueInout { value_a, value_b } ==> r
            == (UteeParamOwned::ValueInout { value_a, value_b }),
        arg matches TaCommandParamsBase64::MemrefInput { .. } ==> (
        r matches UteeParamOwned::MemrefInput { data: d } && d@ == data@),
        arg matches TaCommandParamsBase64::MemrefOutput { buffer_size: size } ==> (
        r matches UteeParamOwned::MemrefOutput { buffer_size } && buffer_size == size),
        arg matches TaCommandParamsBase64::MemrefInout { buffer_size: size, .. } ==> (
        r matches UteeParamOwned::MemrefInout { data: d, buffer_size } && d@ == data@
            && buffer_size == size),
{
}

/// The data of an argument is what its text decodes to; without a text there is none.
pub proof fn law_argument_data(
    arg: TaCommandParamsBase64,
    text: &str,
    decoded: Option<Vec<u8>>,
    r: Option<Vec<u8>>,
)
    requires
        call_ensures(TaCommandParamsBase64::decoded_data, (&arg,), r),
        call_ensures(decode_base64, (text,), decoded),
        arg matches TaCommandParamsBase64::MemrefInput { data_base64 } ==> data_base64@ == text@,
        arg matches TaCommandParamsBase64::MemrefInout { data_base64, .. } ==> data_base64@
            == text@,
    ensures
        arg is MemrefInput || arg is MemrefInout ==> {
            &&& r is Some <==> decoded is Some
            &&& r matches Some(bytes) ==> bytes@ == decoded->0@
        },
        !(arg is MemrefInput || arg is MemrefInout) ==> (r matches Some(bytes) && bytes@.len()
            == 0),
{
}

/// An argument stands for a parameter unless its text is no base64 or its buffer is
/// smaller than its data or than memory can hold; the parameter is the one with its data.
pub proof fn law_argument_stands_for_a_parameter(
    arg: TaCommandParamsBase64,
    data: Option<Vec<u8>>,
    param: UteeParamOwned,
    r: Option<UteeParamOwned>,
)
    requires
        call_ensures(TaCommandParamsBase64::decoded_data, (&arg,), data),
        call_ensures(TaCommandParamsBase64::try_as_utee_params_owned, (&arg,), r),
        data matches Some(d) ==> call_ensures(
            TaCommandParamsBase64::utee_param_with,
            (&arg, d),
            param,
        ),
    ensures
        r is None <==> {
            ||| data is None
            ||| arg matches TaCommandParamsBase64::MemrefOutput { buffer_size } && buffer_size
                > usize::MAX
            ||| arg matches TaCommandParamsBase64::MemrefInout { buffer_size, .. } && (buffer_size
                > usize::MAX || data->0@.len() > buffer_size)
        },
        r matches Some(p) ==> p@ == param@,
{
}

/// A command gives its arguments in their order as the first parameters, and empty ones
/// after them. It gives none if there are more than four arguments or one of them stands
/// for no parameter.
pub proof fn law_command_parameters(
    cmd: TaCommandBase64,
    i: int,
    one: Option<UteeParamOwned>,
    r: Option<[UteeParamOwned; 4]>,
)
    requires
        call_ensures(TaCommandBase64::params, (&cmd,), r),
        0 <= i < 4,
        i < cmd.args@.len() ==> call_ensures(
            TaCommandParamsBase64::try_as_utee_params_owned,
            (&cmd.args@[i],),
            one,
        ),
    ensures
        cmd.args@.len() > 4 ==> r is None,
        i < cmd.args@.len() && one is None ==> r is None,
        r matches Some(params) ==> {
            &&& i < cmd.args@.len() ==> one is Some && params[i]@ == one->0@
            &&& i >= cmd.args@.len() ==> params[i] is Empty
        },
        cmd.args@.len() == 0 ==> r is Some,
        r is None && cmd.args@.len() <= 4 ==> exists|k: int|
            0 <= k < cmd.args@.len() && !(#[trigger] cmd.args@[k]).stands(),
{
    if let Some(params) = r {
        assert(params[i]@ == cmd.param(i));
        if i < cmd.args@.len() {
            assert(cmd.args@[i].stands());
        }
    }
}

/// Closing a session needs nothing. Opening one needs a session for the identity that is
/// presented, or for a user with an identifier of zeros. A command is run in the session
/// that was opened last, and needs nothing before there is one.
pub proof fn law_what_commands_need(
    runner: CommandRunner,
    cmd: TaCommandBase64,
    client: ClientIdentityJson,
    identity: Option<TeeIdentity>,
    r: Option<CommandAction>,
)
    requires
        call_ensures(CommandRunner::action, (&runner, &cmd), r),
        cmd.client_identity matches Some(c) ==> c == client,
        call_ensures(ClientIdentityJson::to_tee_identity, (&client,), identity),
    ensures
        cmd.func_id is CloseSession ==> r == Some(CommandAction::Skip),
        cmd.func_id is InvokeCommand ==> r == Some(
            match runner.session_id {
                Some(session_id) => CommandAction::RunIn(session_id),
                None => CommandAction::Skip,
            },
        ),
        cmd.func_id is OpenSession && cmd.client_identity is Some ==> {
            &&& r is None <==> identity is None
            &&& r matches Some(action) ==> action matches CommandAction::OpenAndRun(opened) && {
                &&& opened.login == identity->0.login
                &&& opened.uuid.time_low == identity->0.uuid.time_low
                &&& opened.uuid.time_mid == identity->0.uuid.time_mid
                &&& opened.uuid.time_hi_and_version == identity->0.uuid.time_hi_and_version
                &&& opened.uuid.clock_seq_and_node@ == identity->0.uuid.clock_seq_and_node@
            }
        },
        cmd.func_id is OpenSession && cmd.client_identity is None ==> (r matches Some(
            CommandAction::OpenAndRun(opened),
        ) && {
            &&& opened.login is User
            &&& opened.uuid.time_low == 0
            &&& opened.uuid.time_mid == 0
            &&& opened.uuid.time_hi_and_version == 0
            &&& forall|i: int| 0 <= i < 8 ==> #[trigger] opened.uuid.clock_seq_and_node@[i] == 0
        }),
{
}

/// Once a session is opened, commands that are invoked run in it; before, there is none.
pub proof fn law_opened_session_is_used(
    fresh: CommandRunner,
    runner: &mut CommandRunner,
    session_id: u32,
    cmd: TaCommandBase64,
    before: Option<CommandAction>,
    after: Option<CommandAction>,
)
    requires
        cmd.func_id is InvokeCommand,
        call_ensures(CommandRunner::new, (), fresh),
        call_ensures(CommandRunner::opened, (runner, session_id), ()),
        call_ensures(CommandRunner::action, (&fresh, &cmd), before),
        call_ensures(CommandRunner::action, (&*final(runner), &cmd), after),
    ensures
        before == Some(CommandAction::Skip),
        after == Some(CommandAction::RunIn(session_id)),
{
}

/// Of returned data as much as there is up to 16 bytes is shown, from its beginning;
/// where there are 16 or more, how many there are as well.
pub proof fn law_shown_data(data: Vec<u8>, r: Preview)
    requires
        call_ensures(preview, (&data,), r),
    ensures
        r is Nothing <==> data@.len() == 0,
        r is Head <==> data@.len() >= 16,
        r matches Preview::Whole(bytes) ==> bytes@ == data@,
        r matches Preview::Head(bytes, total) ==> {
            &&& bytes@.len() == 16
            &&& forall|i: int| 0 <= i < 16 ==> #[trigger] bytes@[i] == data@[i]
            &&& total == data@.len()
        },
{
}

/// An argument that stands for a parameter stands for the one with its data.
pub proof fn law_argument_with_its_data(
    arg: TaCommandParamsBase64,
    data: Vec<u8>,
    param: UteeParamOwned,
    r: UteeParamOwned,
)
    requires
        call_ensures(TaCommandParamsBase64::decoded_data, (&arg,), Some(data)),
        call_ensures(TaCommandParamsBase64::utee_param_with, (&arg, data), param),
        call_ensures(TaCommandParamsBase64::as_utee_params_owned, (&arg,), r),
    ensures
        r@ == param@,
{
}

} // verus!
