//! Running TAs from the command line.

use litebox_optee::base64_data::decode_base64;
use litebox_optee::codes::{TeeLogin, TeeParamType, UteeEntryFunc};
use litebox_optee::msg_update::Output;
use litebox_optee::params::{UteeParamOwned, UteeParams};
use litebox_optee::runner::{
    command_output, default_commands, parse_uuid, plan_run, preview, ClientIdentityJson,
    ClientLoginJson, CliArgs, CommandAction, CommandRunner, InterceptionBackend, Preview, RunPlan,
    TaCommandBase64, TaCommandParamsBase64, TaEntryFunc,
};
use litebox_optee::uuid::TeeUuid;

fn cli(commands: &str, backend: InterceptionBackend, rewrite: bool) -> CliArgs {
    CliArgs {
        ldelf: "ldelf".to_string(),
        program: "ta".to_string(),
        command_sequence: commands.to_string(),
        unstable: true,
        rewrite_syscalls: rewrite,
        interception_backend: backend,
    }
}

#[test]
fn the_command_line_decides_what_to_run() {
    assert_eq!(
        plan_run(&cli("", InterceptionBackend::Seccomp, false)),
        RunPlan { rewrite: false, seccomp: true, default_commands: true }
    );
    assert_eq!(
        plan_run(&cli("cmds.json", InterceptionBackend::Rewriter, true)),
        RunPlan { rewrite: true, seccomp: false, default_commands: false }
    );
    assert_eq!(default_commands(), [UteeEntryFunc::OpenSession, UteeEntryFunc::CloseSession]);
}

#[test]
fn base64_is_decoded() {
    assert_eq!(decode_base64("aGVsbG8="), Some(b"hello".to_vec()));
    assert_eq!(decode_base64("AAEC"), Some(vec![0, 1, 2]));
    assert_eq!(decode_base64(""), Some(vec![]));
    assert_eq!(decode_base64("aGVsbG8"), None);
    assert_eq!(decode_base64("a b="), None);
}

#[test]
fn identifiers_are_parsed() {
    let uuid = TeeUuid::from_bytes([
        0x38, 0x4f, 0xb3, 0xe0, 0xe7, 0xf8, 0x11, 0xe3, 0xaf, 0x63, 0x00, 0x02, 0xa5, 0xd5, 0xc5,
        0x1b,
    ]);
    assert_eq!(parse_uuid("384fb3e0-e7f8-11e3-af63-0002a5d5c51b"), Some(uuid));
    assert_eq!(parse_uuid("384FB3E0E7F811E3AF630002A5D5C51B"), Some(uuid));
    assert_eq!(parse_uuid("384fb3e0-e7f8-11e3-af63-+2+2a5d5c51b").map(|u| u.clock_seq_and_node[2]), Some(2));
    assert_eq!(parse_uuid(""), None);
    assert_eq!(parse_uuid("384fb3e0-e7f8-11e3-af63-0002a5d5c51"), None);
    assert_eq!(parse_uuid("384fb3e0-e7f8-11e3-af63-0002a5d5c51g"), None);
    assert_eq!(parse_uuid("384fb3e0-e7f8-11e3-af63-0002a5d5c51b0"), None);
    assert_eq!(parse_uuid("384fb3e0e7f811e3af630002a5d5c5\u{e9}"), None);
}

#[test]
fn identities_of_clients() {
    let plain = ClientIdentityJson { login: ClientLoginJson::default(), uuid: None };
    let identity = plain.to_tee_identity().unwrap();
    assert_eq!(identity.login, TeeLogin::User);
    assert_eq!(identity.uuid, TeeUuid::nil());
    let named = ClientIdentityJson {
        login: ClientLoginJson::ReeKernel,
        uuid: Some("00000001-0000-0000-0000-000000000000".to_string()),
    };
    let identity = named.to_tee_identity().unwrap();
    assert_eq!(identity.login, TeeLogin::ReeKernel);
    assert_eq!(identity.uuid.time_low, 1);
    let broken = ClientIdentityJson { login: ClientLoginJson::Group, uuid: Some("x".to_string()) };
    assert_eq!(broken.to_tee_identity(), None);
    assert_eq!(TeeLogin::from(ClientLoginJson::ApplicationGroup), TeeLogin::ApplicationGroup);
}

#[test]
fn arguments_stand_for_parameters() {
    let input = TaCommandParamsBase64::MemrefInput { data_base64: "AAEC".to_string() };
    assert_eq!(
        input.as_utee_params_owned(),
        UteeParamOwned::MemrefInput { data: vec![0, 1, 2] }
    );
    assert_eq!(
        input.utee_param_with(vec![9]),
        UteeParamOwned::MemrefInput { data: vec![9] }
    );
    assert_eq!(input.decoded_data(), Some(vec![0, 1, 2]));
    let inout = |size: u64| TaCommandParamsBase64::MemrefInout {
        data_base64: "AAEC".to_string(),
        buffer_size: size,
    };
    assert_eq!(
        inout(3).try_as_utee_params_owned(),
        Some(UteeParamOwned::MemrefInout { data: vec![0, 1, 2], buffer_size: 3 })
    );
    assert_eq!(inout(2).try_as_utee_params_owned(), None);
    assert_eq!(
        TaCommandParamsBase64::MemrefInput { data_base64: "?".to_string() }.try_as_utee_params_owned(),
        None
    );
    assert_eq!(
        TaCommandParamsBase64::MemrefOutput { buffer_size: 7 }.try_as_utee_params_owned(),
        Some(UteeParamOwned::MemrefOutput { buffer_size: 7 })
    );
    assert_eq!(
        TaCommandParamsBase64::ValueInout { value_a: 1, value_b: 2 }.as_utee_params_owned(),
        UteeParamOwned::ValueInout { value_a: 1, value_b: 2 }
    );
    assert_eq!(
        TaCommandParamsBase64::ValueInput { value_a: 1, value_b: 2 }.as_utee_params_owned(),
        UteeParamOwned::ValueInput { value_a: 1, value_b: 2 }
    );
    assert_eq!(
        TaCommandParamsBase64::ValueOutput {}.as_utee_params_owned(),
        UteeParamOwned::ValueOutput
    );
}

fn command(func_id: TaEntryFunc, args: Vec<TaCommandParamsBase64>) -> TaCommandBase64 {
    TaCommandBase64 { func_id, cmd_id: 4, args, client_identity: None }
}

#[test]
fn commands_have_up_to_four_parameters() {
    let value = TaCommandParamsBase64::ValueOutput {};
    let cmd = command(TaEntryFunc::InvokeCommand, vec![value.clone()]);
    assert_eq!(
        cmd.params(),
        Some([
            UteeParamOwned::ValueOutput,
            UteeParamOwned::Empty,
            UteeParamOwned::Empty,
            UteeParamOwned::Empty,
        ])
    );
    assert!(command(TaEntryFunc::InvokeCommand, vec![value.clone(); 4]).params().is_some());
    assert_eq!(command(TaEntryFunc::InvokeCommand, vec![value; 5]).params(), None);
    let broken = TaCommandParamsBase64::MemrefInput { data_base64: "?".to_string() };
    assert_eq!(command(TaEntryFunc::InvokeCommand, vec![broken]).params(), None);
    assert_eq!(TaEntryFunc::CloseSession.to_entry_func(), UteeEntryFunc::CloseSession);
}

#[test]
fn commands_run_in_the_session_that_was_opened() {
    let mut runner = CommandRunner::new();
    let open = command(TaEntryFunc::OpenSession, vec![]);
    let invoke = command(TaEntryFunc::InvokeCommand, vec![]);
    let close = command(TaEntryFunc::CloseSession, vec![]);
    assert_eq!(runner.action(&invoke), Some(CommandAction::Skip));
    match runner.action(&open) {
        Some(CommandAction::OpenAndRun(identity)) => {
            assert_eq!(identity.login, TeeLogin::User);
            assert_eq!(identity.uuid, TeeUuid::nil());
        }
        _ => panic!("not opened"),
    }
    runner.opened(12);
    assert_eq!(runner.action(&invoke), Some(CommandAction::RunIn(12)));
    assert_eq!(runner.action(&close), Some(CommandAction::Skip));
    let mut unknown = command(TaEntryFunc::OpenSession, vec![]);
    unknown.client_identity =
        Some(ClientIdentityJson { login: ClientLoginJson::User, uuid: Some("no".to_string()) });
    assert_eq!(runner.action(&unknown), None);
    // An identifier that is too long is none.
    unknown.client_identity = Some(ClientIdentityJson {
        login: ClientLoginJson::User,
        uuid: Some("384fb3e0-e7f8-11e3-af63-0002a5d5c51b00".to_string()),
    });
    assert_eq!(runner.action(&unknown), None);
}

#[test]
fn outputs_are_shown() {
    let mut params = UteeParams::new();
    params.set_type(0, TeeParamType::ValueInout).unwrap();
    params.set_values(0, 5, 6).unwrap();
    params.set_type(1, TeeParamType::MemrefOutput).unwrap();
    params.set_values(1, 0x1000, 20).unwrap();
    params.set_type(2, TeeParamType::MemrefInput).unwrap();
    assert!(matches!(command_output(&params, 0), Output::Values(5, 6)));
    assert!(matches!(command_output(&params, 1), Output::Memory(0x1000, 20)));
    assert!(matches!(command_output(&params, 2), Output::Nothing));
    assert!(matches!(command_output(&params, 3), Output::Nothing));
    params.types.bits = 0xf;
    assert!(matches!(command_output(&params, 0), Output::Unknown));
    assert_eq!(preview(&vec![]), Preview::Nothing);
    assert_eq!(preview(&vec![1; 15]), Preview::Whole(vec![1; 15]));
    assert_eq!(preview(&vec![1; 16]), Preview::Head(vec![1; 16], 16));
    assert_eq!(preview(&vec![2; 40]), Preview::Head(vec![2; 16], 40));
}
